//! Queries over plain text: the columns, the table and the join are given
//! as ready-made SQL fragments.

use vstd::prelude::*;
use vstd::string::*;
use crate::text::{int_text, int_to_text};

verus! {

/// The kind of statement a query is. Only `SELECT` can be written out.
#[allow(non_camel_case_types)]
pub enum Command {
    SELECT,
    INSERT,
    DELETE,
    UPDATE,
}

/// A query whose parts are SQL fragments.
pub struct Query<'a> {
    cmd: Command,
    cols: &'a str,
    limit: Option<i64>,
    from: &'a str,
    conditon: Option<&'a str>,
    join: Option<&'a str>,
}

/// What a text query is in contracts.
pub struct TextQueryModel {
    pub cmd: Command,
    pub cols: Seq<char>,
    pub limit: Option<i64>,
    pub from: Seq<char>,
    pub condition: Option<Seq<char>>,
    pub join: Option<Seq<char>>,
}

/// The model of an optional fragment.
pub open spec fn fragment(f: Option<&str>) -> Option<Seq<char>> {
    match f {
        Some(s) => Some(s@),
        None => None,
    }
}

impl<'a> View for Query<'a> {
    type V = TextQueryModel;

    closed spec fn view(&self) -> TextQueryModel {
        TextQueryModel {
            cmd: self.cmd,
            cols: self.cols@,
            limit: self.limit,
            from: self.from@,
            condition: fragment(self.conditon),
            join: fragment(self.join),
        }
    }
}

/// The SQL text of a text query: `SELECT [TOP n ]<cols> FROM <table>`, then
/// ` JOIN <join>` and ` WHERE <condition>` where present (with one more space
/// when neither is), then ` FOR JSON PATH;`.
pub open spec fn text_query_text(q: TextQueryModel) -> Seq<char> {
    "SELECT "@ + (match q.limit {
        Some(l) => "TOP "@ + int_text(l as int) + " "@,
        None => Seq::empty(),
    }) + q.cols + " FROM "@ + q.from + (match q.join {
        Some(j) => " JOIN "@ + j,
        None => Seq::empty(),
    }) + (match q.condition {
        Some(c) => " WHERE "@ + c,
        None => Seq::empty(),
    }) + (if q.join is None && q.condition is None {
        " "@
    } else {
        Seq::empty()
    }) + " FOR JSON PATH;"@
}

impl Query<'_> {
    /// A query of `cols` from `from_table`, with no limit, condition or join.
    pub fn new<'a>(cmd: Command, cols: &'a str, from_table: &'a str) -> (r: Query<'a>)
        ensures
            r@ == (TextQueryModel {
                cmd: cmd,
                cols: cols@,
                limit: None,
                from: from_table@,
                condition: None,
                join: None,
            }),
    {
        Query { cmd, cols, limit: None, from: from_table, conditon: None, join: None }
    }

    /// Writes the query as SQL text.
    pub fn build(self) -> (r: String)
        requires
            self@.cmd == Command::SELECT,
        ensures
            r@ == text_query_text(self@),
    {
        let top = match self.limit {
            Some(l) => {
                let mut t = String::new();
                t.append("TOP ");
                let digits = int_to_text(l);
                t.append(digits.as_str());
                t.append(" ");
                t
            },
            None => String::new(),
        };
        let join_part = match self.join {
            Some(j) => {
                let mut t = String::new();
                t.append(" JOIN ");
                t.append(j);
                t
            },
            None => String::new(),
        };
        let where_part = match self.conditon {
            Some(c) => {
                let mut t = String::new();
                t.append(" WHERE ");
                t.append(c);
                t
            },
            None => String::new(),
        };
        let mut res = String::new();
        res.append("SELECT ");
        res.append(top.as_str());
        res.append(self.cols);
        res.append(" FROM ");
        res.append(self.from);
        res.append(join_part.as_str());
        res.append(where_part.as_str());
        if self.join.is_none() && self.conditon.is_none() {
            res.append(" ");
        } else {
            res.append("");
            proof { reveal_strlit(""); }
            assert(""@ =~= Seq::<char>::empty());
        }
        res.append(" FOR JSON PATH;");
        res
    }
}

} // verus!
