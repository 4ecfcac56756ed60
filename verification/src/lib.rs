//! A small SQL `SELECT` builder with verified text generation.

pub mod text;
pub mod objects;
pub mod dml;
pub mod laws;
pub mod text_laws;

use vstd::prelude::*;
use vstd::string::*;
use crate::text::{join_strings, joined, str_views, string_views};

verus! {

/// A statement to run: its command text and the values bound to its
/// parameters, if any.
#[derive(Clone)]
pub struct Statement<'a, S> {
    cmd: S,
    pub params: Option<Vec<&'a str>>,
}

impl<'a, S> Statement<'a, S> {
    /// The statement's command.
    pub closed spec fn command(&self) -> S {
        self.cmd
    }

    /// The statement's parameters.
    pub closed spec fn parameters(&self) -> Option<Vec<&'a str>> {
        self.params
    }
}

impl<S> Statement<'_, S> {
    /// A statement without parameters.
    pub fn new<'a>(cmd: S) -> (r: Statement<'a, S>)
        ensures
            r.command() == cmd,
            r.parameters() is None,
    {
        Statement { cmd, params: None }
    }

    /// A statement with parameters.
    pub fn new_parametized<'a>(cmd: S, params: Vec<&'a str>) -> (r: Statement<'a, S>)
        ensures
            r.command() == cmd,
            r.parameters() == Some(params),
    {
        Statement { cmd, params: Some(params) }
    }

    /// The statement's command.
    pub fn cmd(&self) -> (r: &S)
        ensures
            *r == self.command(),
    {
        &self.cmd
    }
}

/// A type stored in a table whose text query it can write out itself.
pub trait Entity: Sized {
    /// The text of the query that selects the entity's rows.
    spec fn table_text() -> Seq<char>;

    /// The query that selects the entity's rows.
    fn as_table() -> (r: String)
        ensures
            r@ == Self::table_text(),
    ;

    /// A statement that runs `Self::as_table()`, without parameters.
    fn find<'a>() -> (r: Statement<'a, String>)
        ensures
            r.command()@ == Self::table_text(),
            r.parameters() is None,
    {
        Statement::new(Self::as_table())
    }
}

/// The query text that selects the fields `fields` of the table `ident`:
/// the field names joined by commas.
pub open spec fn entity_text(fields: Seq<Seq<char>>, ident: Seq<char>) -> Seq<char> {
    "SELECT "@ + joined(fields, ","@) + " FROM "@ + ident + " FOR JSON PATH;"@
}

/// Writes the query text of `Entity::as_table` for a struct named `ident`
/// with fields `fields`.
pub fn entity_table_text(fields: &Vec<String>, ident: &str) -> (r: String)
    ensures
        r@ == entity_text(string_views(fields@), ident@),
{
    let names = join_strings(fields, ",");
    let mut r = String::new();
    r.append("SELECT ");
    r.append(names.as_str());
    r.append(" FROM ");
    r.append(ident);
    r.append(" FOR JSON PATH;");
    r
}

/// What running a statement answers.
pub enum DatabaseResponse {
    /// The rows that came back, as text.
    Results(String),
    /// A note that the statement ran and returned no result set.
    Message(String),
    /// Why the statement failed.
    Error(String),
}

/// A cell of a result row as text: its value, or `NULL` when it has none.
pub open spec fn cell_text(c: Option<String>) -> Seq<char> {
    match c {
        Some(s) => s@,
        None => "NULL"@,
    }
}

/// A result row as text: its cells separated by tabs.
pub open spec fn row_text(row: Seq<Option<String>>) -> Seq<char> {
    joined(row.map_values(|c: Option<String>| cell_text(c)), "\t"@)
}

/// Result rows as text: one line per row, separated by newlines.
pub open spec fn rows_text(rows: Seq<Vec<Option<String>>>) -> Seq<char> {
    joined(rows.map_values(|row: Vec<Option<String>>| row_text(row@)), "\n"@)
}

fn row_to_text(row: &Vec<Option<String>>) -> (r: String)
    ensures
        r@ == row_text(row@),
{
    let mut cells: Vec<String> = Vec::new();
    let mut i: usize = 0;
    while i < row.len()
        invariant
            0 <= i <= row.len(),
            cells.len() == i,
            forall|k: int| 0 <= k < i ==> #[trigger] cells@[k]@ == cell_text(row@[k]),
        decreases row.len() - i,
    {
        match &row[i] {
            Some(s) => cells.push(s.clone()),
            None => cells.push(str::to_owned("NULL")),
        }
        i += 1;
    }
    assert(string_views(cells@) =~= row@.map_values(|c: Option<String>| cell_text(c)));
    join_strings(&cells, "\t")
}

/// Writes result rows as text: cells separated by tabs, rows by newlines,
/// `NULL` for a cell without a value.
pub fn result_text(rows: &Vec<Vec<Option<String>>>) -> (r: String)
    ensures
        r@ == rows_text(rows@),
{
    let mut lines: Vec<String> = Vec::new();
    let mut i: usize = 0;
    while i < rows.len()
        invariant
            0 <= i <= rows.len(),
            lines.len() == i,
            forall|k: int| 0 <= k < i ==> #[trigger] lines@[k]@ == row_text(rows@[k]@),
        decreases rows.len() - i,
    {
        lines.push(row_to_text(&rows[i]));
        i += 1;
    }
    assert(string_views(lines@) =~= rows@.map_values(
        |row: Vec<Option<String>>| row_text(row@),
    ));
    join_strings(&lines, "\n")
}

impl DatabaseResponse {
    /// The answer to a statement that ran: its rows as text when it returned
    /// a result set (`Some`), else the message `Query complete.`.
    pub fn from_rows(rows: Option<Vec<Vec<Option<String>>>>) -> (r: DatabaseResponse)
        ensures
            match rows {
                Some(rows) => r matches DatabaseResponse::Results(t) && t@ == rows_text(rows@),
                None => r matches DatabaseResponse::Message(m) && m@ == "Query complete."@,
            },
    {
        match rows {
            Some(rows) => DatabaseResponse::Results(result_text(&rows)),
            None => DatabaseResponse::Message(str::to_owned("Query complete.")),
        }
    }
}

/// `j` is where the value at `i` first occurs in `s`.
pub open spec fn first_occurrence(s: Seq<Seq<char>>, i: int, j: int) -> bool {
    &&& 0 <= j <= i < s.len()
    &&& s[j] == s[i]
    &&& forall|k: int| 0 <= k < j ==> s[k] != s[i]
}

/// `pos` is the 1-based position, kept to 16 bits, of the first value in
/// `s` equal to the one at `i`.
pub open spec fn bound_position(s: Seq<Seq<char>>, i: int, pos: u16) -> bool {
    exists|j: int| #[trigger] first_occurrence(s, i, j) && pos as int == (j + 1) % 65536
}

/// The 1-based position at which each parameter is bound: the position of
/// the first parameter with the same value, kept to 16 bits.
pub fn parameter_positions(params: &Vec<&str>) -> (r: Vec<u16>)
    ensures
        r.len() == params.len(),
        forall|i: int| 0 <= i < params.len() ==> bound_position(str_views(params@), i, #[trigger] r[i]),
{
    let ghost views = str_views(params@);
    let mut r: Vec<u16> = Vec::new();
    let mut i: usize = 0;
    while i < params.len()
        invariant
            0 <= i <= params.len(),
            views == str_views(params@),
            r.len() == i,
            forall|k: int| 0 <= k < i ==> bound_position(views, k, #[trigger] r[k]),
        decreases params.len() - i,
    {
        let target = str::to_owned(params[i]);
        let mut j: usize = 0;
        while j < i
            invariant
                0 <= j <= i < params.len(),
                views == str_views(params@),
                target@ == views[i as int],
                forall|k: int| 0 <= k < j ==> views[k] != views[i as int],
            ensures
                j <= i,
                views[j as int] == views[i as int],
                forall|k: int| 0 <= k < j ==> views[k] != views[i as int],
            decreases i - j,
        {
            let candidate = str::to_owned(params[j]);
            if candidate == target {
                break;
            }
            j += 1;
        }
        assert(first_occurrence(views, i as int, j as int));
        let pos: usize = (j + 1) % 65536;
        let ghost before = r@;
        r.push(pos as u16);
        assert forall|k: int| 0 <= k < i + 1 implies bound_position(views, k, #[trigger] r[k]) by {
            if k < i {
                assert(r[k] == before[k]);
            }
        }
        i += 1;
    }
    r
}

} // verus!
