//! `SELECT` queries over tables, with an optional row limit and join.

use vstd::prelude::*;
use vstd::string::*;
use crate::objects::{copy_cols, Cols, Table, TableModel};
use crate::text::{int_text, int_to_text, join_strs, joined, str_views};
use self::complex::{join_text, Join, JoinModel, JoinState};

pub mod complex;
pub mod simple;

verus! {

/// The kind of statement a query is. Only `SELECT` can be written out.
#[allow(non_camel_case_types)]
#[derive(Debug, Clone)]
pub enum Command {
    SELECT,
    INSERT,
    DELETE,
    UPDATE,
}

/// A query over a table: the command, the selected columns, an optional row
/// limit, an optional condition and an optional join.
#[derive(Debug, Clone)]
pub struct Query {
    cmd: Command,
    cols: Cols,
    limit: Option<i64>,
    from: Table,
    conditon: Option<String>,
    join: Option<Join>,
}

/// What a query is in contracts.
pub struct QueryModel {
    pub cmd: Command,
    pub cols: Seq<Seq<char>>,
    pub limit: Option<i64>,
    pub from: TableModel,
    pub condition: Option<Seq<char>>,
    pub join: Option<JoinModel>,
}

impl View for Query {
    type V = QueryModel;

    closed spec fn view(&self) -> QueryModel {
        QueryModel {
            cmd: self.cmd,
            cols: str_views(self.cols@),
            limit: self.limit,
            from: self.from@,
            condition: match self.conditon {
                Some(c) => Some(c@),
                None => None,
            },
            join: match self.join {
                Some(j) => Some(j@),
                None => None,
            },
        }
    }
}

impl QueryModel {
    /// A query that can be written out: a `SELECT` whose join, if any, is
    /// buildable.
    pub open spec fn buildable(self) -> bool {
        &&& self.cmd == Command::SELECT
        &&& (self.join matches Some(j) ==> j.buildable())
    }

    /// The query with its row limit set to `limit`.
    pub open spec fn with_limit(self, limit: i64) -> QueryModel {
        QueryModel { limit: Some(limit), ..self }
    }

    /// The query joined with `j`, which is marked complete.
    pub open spec fn with_join(self, j: JoinModel) -> QueryModel {
        QueryModel { join: Some(JoinModel { state: JoinState::Complete, ..j }), ..self }
    }

    /// The query after `on(cols)`: the missing side of its join becomes the
    /// query's own table and the missing column list becomes `cols`.
    pub open spec fn with_on(self, cols: Seq<Seq<char>>) -> QueryModel {
        QueryModel { join: Some(fill_join(self.join.unwrap(), self.from, cols)), ..self }
    }
}

/// A join whose missing table is `from` and whose missing column list is
/// `cols`; a side that is already there, or a pair where both are missing,
/// stays as it is.
pub open spec fn fill_join(j: JoinModel, from: TableModel, cols: Seq<Seq<char>>) -> JoinModel {
    JoinModel {
        state: j.state,
        l_tbl: if j.l_tbl is None && j.r_tbl is Some { Some(from) } else { j.l_tbl },
        r_tbl: if j.r_tbl is None && j.l_tbl is Some { Some(from) } else { j.r_tbl },
        l_col: if j.l_col is None && j.r_col is Some { Some(cols) } else { j.l_col },
        r_col: if j.r_col is None && j.l_col is Some { Some(cols) } else { j.r_col },
    }
}

/// `TOP <limit> ` when there is a limit.
pub open spec fn top_text(limit: Option<i64>) -> Seq<char> {
    match limit {
        Some(l) => "TOP "@ + int_text(l as int) + " "@,
        None => Seq::empty(),
    }
}

/// The join part after the table name. Without a limit but with a
/// condition, the join text is preceded by an extra `JOIN` word.
pub open spec fn join_part(q: QueryModel) -> Seq<char> {
    match q.join {
        Some(j) => (if q.limit is None && q.condition is Some {
            " JOIN "@
        } else {
            " "@
        }) + join_text(j),
        None => Seq::empty(),
    }
}

/// ` WHERE <condition>` when there is a condition.
pub open spec fn where_part(condition: Option<Seq<char>>) -> Seq<char> {
    match condition {
        Some(c) => " WHERE "@ + c,
        None => Seq::empty(),
    }
}

/// The SQL text of a buildable query.
pub open spec fn query_text(q: QueryModel) -> Seq<char> {
    "SELECT "@ + top_text(q.limit) + joined(q.cols, ", "@) + " FROM "@ + q.from.name + join_part(q)
        + where_part(q.condition) + " FOR JSON PATH;"@
}

impl Query {
    /// A query of `cols` from `from_table`, with no limit, condition or join.
    pub fn new(cmd: Command, cols: Cols, from_table: Table) -> (r: Query)
        ensures
            r@ == (QueryModel {
                cmd: cmd,
                cols: str_views(cols@),
                limit: None,
                from: from_table@,
                condition: None,
                join: None,
            }),
    {
        Query { cmd, cols, limit: None, from: from_table, conditon: None, join: None }
    }

    /// Limits the query to `limit` rows.
    pub fn limit(self, limit: i64) -> (r: Query)
        ensures
            r@ == self@.with_limit(limit),
    {
        let mut q = self;
        q.limit = Some(limit);
        q
    }

    /// Joins the query with `join`, which is marked complete.
    pub fn join(self, join: Join) -> (r: Query)
        ensures
            r@ == self@.with_join(join@),
    {
        let mut q = self;
        let mut join = join;
        join.state = JoinState::Complete;
        q.join = Some(join);
        q
    }

    /// Fills in the missing side of the query's join with the query's own
    /// table and `cols`.
    pub fn on(self, cols: Cols) -> (r: Query)
        requires
            self@.join is Some,
            !(self@.join.unwrap().l_tbl is None && self@.join.unwrap().r_tbl is None),
        ensures
            r@ == self@.with_on(str_views(cols@)),
    {
        let mut q = self;
        let mut join = q.join.take().unwrap();
        if join.l_tbl.is_none() && join.r_tbl.is_some() {
            join.l_tbl = Some(Table { name: q.from.name, cols: copy_cols(&q.from.cols) });
        } else if join.r_tbl.is_none() && join.l_tbl.is_some() {
            join.r_tbl = Some(Table { name: q.from.name, cols: copy_cols(&q.from.cols) });
        }
        if join.l_col.is_none() && join.r_col.is_some() {
            join.l_col = Some(cols);
        } else if join.r_col.is_none() && join.l_col.is_some() {
            join.r_col = Some(cols);
        }
        q.join = Some(join);
        q
    }

    /// Whether `build` can write the query out: it is a `SELECT` and its
    /// join, if any, is complete with both sides known.
    pub fn buildable(&self) -> (r: bool)
        ensures
            r == self@.buildable(),
    {
        let select = match self.cmd {
            Command::SELECT => true,
            _ => false,
        };
        let join_ok = match &self.join {
            Some(j) => {
                let complete = match j.state {
                    JoinState::Complete => true,
                    JoinState::Incomplete => false,
                };
                complete && j.l_tbl.is_some() && j.r_tbl.is_some() && j.l_col.is_some()
                    && j.r_col.is_some()
            },
            None => true,
        };
        select && join_ok
    }

    /// Writes the query as SQL text.
    pub fn build(self) -> (r: String)
        requires
            self@.buildable(),
        ensures
            r@ == query_text(self@),
    {
        let ghost m = self@;
        let top = match self.limit {
            Some(l) => {
                let mut t = String::new();
                t.append("TOP ");
                let digits = int_to_text(l);
                t.append(digits.as_str());
                t.append(" ");
                t
            },
            None => String::new(),
        };
        let cols = join_strs(&self.cols, ", ");
        let join_part = match self.join {
            Some(j) => {
                let mut t = String::new();
                if self.limit.is_none() && self.conditon.is_some() {
                    t.append(" JOIN ");
                } else {
                    t.append(" ");
                }
                let jt = j.build();
                t.append(jt.as_str());
                t
            },
            None => String::new(),
        };
        let where_part = match self.conditon {
            Some(c) => {
                let mut t = String::new();
                t.append(" WHERE ");
                t.append(c.as_str());
                t
            },
            None => String::new(),
        };
        let mut res = String::new();
        res.append("SELECT ");
        res.append(top.as_str());
        res.append(cols.as_str());
        res.append(" FROM ");
        res.append(self.from.name);
        res.append(join_part.as_str());
        res.append(where_part.as_str());
        res.append(" FOR JSON PATH;");
        res
    }
}

} // verus!
