//! Tables, column lists and the `Entity` trait that maps a type onto a table.

use vstd::prelude::*;
use crate::dml::complex::{Join, JoinModel};
use crate::dml::{Command, Query, QueryModel, query_text};
use crate::text::str_views;
use crate::Statement;

verus! {

/// A list of column names.
pub type Cols = Vec<&'static str>;

/// A table name.
pub type Tbl = &'static str;

/// A table: its name and its columns.
#[derive(Debug, Clone)]
pub struct Table {
    pub name: Tbl,
    pub cols: Cols,
}

/// A bare list of columns.
#[derive(Debug, Clone)]
pub struct Columns {
    pub cols: Cols,
}

/// What a table is in contracts: its name and the names of its columns.
pub struct TableModel {
    pub name: Seq<char>,
    pub cols: Seq<Seq<char>>,
}

impl View for Table {
    type V = TableModel;

    open spec fn view(&self) -> TableModel {
        TableModel { name: self.name@, cols: str_views(self.cols@) }
    }
}

/// A copy of a column list, name for name.
pub(crate) fn copy_cols(cols: &Cols) -> (r: Cols)
    ensures
        r@ == cols@,
{
    let mut r: Cols = Vec::new();
    let mut i: usize = 0;
    while i < cols.len()
        invariant
            0 <= i <= cols.len(),
            r@ == cols@.take(i as int),
        decreases cols.len() - i,
    {
        r.push(cols[i]);
        assert(r@ =~= cols@.take(i + 1));
        i += 1;
    }
    assert(cols@.take(cols.len() as int) =~= cols@);
    r
}

/// The plain query over all columns of a table, as `Entity::query` makes it.
pub open spec fn entity_query_model(cols: Seq<Seq<char>>, name: Seq<char>) -> QueryModel {
    QueryModel {
        cmd: Command::SELECT,
        cols: cols,
        limit: None,
        from: TableModel { name: name, cols: cols },
        condition: None,
        join: None,
    }
}

/// A type stored in a table. Implementors say which table and columns; the
/// rest is derived from that.
pub trait Entity: Sized {
    /// The entity as the right-hand side of a join on `cols`; the left-hand
    /// side is filled in later by `Query::on`.
    fn as_join(cols: Cols) -> (r: Join)
        ensures
            r@ == JoinModel::right_only(Self::entity_table(), str_views(cols@)),
    {
        let (columns, table) = Self::table_column();
        Join::from_right(Table { name: table, cols: columns }, cols)
    }

    /// The entity's table: its name and its columns, as `table_column` gives
    /// them.
    spec fn entity_table() -> TableModel;

    /// The entity's table.
    fn table() -> (r: Table)
        ensures
            r@ == Self::entity_table(),
    {
        let (cols, table) = Self::table_column();
        Table { name: table, cols }
    }

    /// The entity's columns and table name.
    fn table_column() -> (r: (Vec<&'static str>, &'static str))
        ensures
            str_views(r.0@) == Self::entity_table().cols,
            r.1@ == Self::entity_table().name,
    ;

    /// A `SELECT` of all the entity's columns from its table.
    fn query() -> (r: Query)
        ensures
            r@ == entity_query_model(Self::entity_table().cols, Self::entity_table().name),
    {
        let (cols, table) = Self::table_column();
        let table = Table { name: table, cols: copy_cols(&cols) };
        Query::new(Command::SELECT, cols, table)
    }

    /// A statement that runs `Self::query()`.
    fn find<'a>() -> (r: Statement<'a, String>)
        ensures
            r.parameters() is None,
            r.command()@ == query_text(
                entity_query_model(Self::entity_table().cols, Self::entity_table().name),
            ),
    {
        let q = Self::query();
        let ghost m = q@;
        let text = q.build();
        assert(text@ == query_text(entity_query_model(m.cols, m.from.name)));
        Statement::new(text)
    }
}

} // verus!
