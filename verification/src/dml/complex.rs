//! Joins between two tables.

use vstd::prelude::*;
use vstd::string::*;
use crate::objects::{Cols, Table, TableModel};
use crate::text::str_views;

verus! {

/// Whether both sides of a join are known.
#[derive(Debug, Clone)]
pub enum JoinState {
    Complete,
    Incomplete,
}

/// A join: two tables and the columns paired up between them.
#[derive(Debug, Clone)]
pub struct Join {
    pub state: JoinState,
    pub l_tbl: Option<Table>,
    pub r_tbl: Option<Table>,
    pub l_col: Option<Cols>,
    pub r_col: Option<Cols>,
}

/// What a join is in contracts.
pub struct JoinModel {
    pub state: JoinState,
    pub l_tbl: Option<TableModel>,
    pub r_tbl: Option<TableModel>,
    pub l_col: Option<Seq<Seq<char>>>,
    pub r_col: Option<Seq<Seq<char>>>,
}

/// The model of an optional table.
pub open spec fn table_model(t: Option<Table>) -> Option<TableModel> {
    match t {
        Some(t) => Some(t@),
        None => None,
    }
}

/// The model of an optional column list.
pub open spec fn cols_model(c: Option<Cols>) -> Option<Seq<Seq<char>>> {
    match c {
        Some(c) => Some(str_views(c@)),
        None => None,
    }
}

impl View for Join {
    type V = JoinModel;

    open spec fn view(&self) -> JoinModel {
        JoinModel {
            state: self.state,
            l_tbl: table_model(self.l_tbl),
            r_tbl: table_model(self.r_tbl),
            l_col: cols_model(self.l_col),
            r_col: cols_model(self.r_col),
        }
    }
}

impl JoinModel {
    /// A complete join of `l` on `lc` with `r` on `rc`.
    pub open spec fn complete(l: TableModel, lc: Seq<Seq<char>>, r: TableModel, rc: Seq<Seq<char>>) -> JoinModel {
        JoinModel { state: JoinState::Complete, l_tbl: Some(l), r_tbl: Some(r), l_col: Some(lc), r_col: Some(rc) }
    }

    /// An incomplete join that knows only its right-hand side.
    pub open spec fn right_only(r: TableModel, rc: Seq<Seq<char>>) -> JoinModel {
        JoinModel { state: JoinState::Incomplete, l_tbl: None, r_tbl: Some(r), l_col: None, r_col: Some(rc) }
    }

    /// An incomplete join that knows only its left-hand side.
    pub open spec fn left_only(l: TableModel, lc: Seq<Seq<char>>) -> JoinModel {
        JoinModel { state: JoinState::Incomplete, l_tbl: Some(l), r_tbl: None, l_col: Some(lc), r_col: None }
    }

    /// A join that can be written out: complete, with both tables and both
    /// column lists.
    pub open spec fn buildable(self) -> bool {
        &&& self.state == JoinState::Complete
        &&& self.l_tbl is Some
        &&& self.r_tbl is Some
        &&& self.l_col is Some
        &&& self.r_col is Some
    }
}

/// The first `n` column pairs as an `ON` clause:
/// `ON lt.l0 = rt.r0 AND lt.l1 = rt.r1 ...`.
pub open spec fn on_pairs(
    lt: Seq<char>,
    rt: Seq<char>,
    l: Seq<Seq<char>>,
    r: Seq<Seq<char>>,
    n: nat,
) -> Seq<char>
    decreases n,
{
    if n == 0 {
        Seq::empty()
    } else {
        on_pairs(lt, rt, l, r, (n - 1) as nat) + (if n == 1 {
            "ON "@
        } else {
            " AND "@
        }) + lt + "."@ + l[n - 1] + " = "@ + rt + "."@ + r[n - 1]
    }
}

/// How many column pairs a join has: the shorter of the two lists.
pub open spec fn pair_count(l: Seq<Seq<char>>, r: Seq<Seq<char>>) -> nat {
    if l.len() < r.len() {
        l.len()
    } else {
        r.len()
    }
}

/// The text of a buildable join: `JOIN <left table> <ON clause>`.
pub open spec fn join_text(j: JoinModel) -> Seq<char> {
    let lt = j.l_tbl.unwrap().name;
    let rt = j.r_tbl.unwrap().name;
    let l = j.l_col.unwrap();
    let r = j.r_col.unwrap();
    "JOIN "@ + lt + " "@ + on_pairs(lt, rt, l, r, pair_count(l, r))
}

impl Join {
    /// A complete join of `l_tbl` on `l_col` with `r_tbl` on `r_col`.
    pub fn new(l_tbl: Table, l_col: Cols, r_tbl: Table, r_col: Cols) -> (r: Join)
        ensures
            r@ == JoinModel::complete(l_tbl@, str_views(l_col@), r_tbl@, str_views(r_col@)),
    {
        Join {
            state: JoinState::Complete,
            l_tbl: Some(l_tbl),
            r_tbl: Some(r_tbl),
            l_col: Some(l_col),
            r_col: Some(r_col),
        }
    }

    /// An incomplete join that knows only its right-hand side.
    pub fn from_right(r_tbl: Table, r_col: Cols) -> (r: Join)
        ensures
            r@ == JoinModel::right_only(r_tbl@, str_views(r_col@)),
    {
        Join { state: JoinState::Incomplete, l_tbl: None, r_tbl: Some(r_tbl), l_col: None, r_col: Some(r_col) }
    }

    /// An incomplete join that knows only its left-hand side.
    pub fn from_left(l_tbl: Table, l_col: Cols) -> (r: Join)
        ensures
            r@ == JoinModel::left_only(l_tbl@, str_views(l_col@)),
    {
        Join { state: JoinState::Incomplete, l_tbl: Some(l_tbl), r_tbl: None, l_col: Some(l_col), r_col: None }
    }

    /// Writes the join as SQL text.
    pub fn build(self) -> (r: String)
        requires
            self@.buildable(),
        ensures
            r@ == join_text(self@),
    {
        let lt: &str = self.l_tbl.as_ref().unwrap().name;
        let rt: &str = self.r_tbl.as_ref().unwrap().name;
        let l = self.l_col.unwrap();
        let r = self.r_col.unwrap();
        let ghost lv = str_views(l@);
        let ghost rv = str_views(r@);
        let n: usize = if l.len() < r.len() { l.len() } else { r.len() };
        let mut on = String::new();
        let mut i: usize = 0;
        while i < n
            invariant
                0 <= i <= n,
                n <= l.len(),
                n <= r.len(),
                lv == str_views(l@),
                rv == str_views(r@),
                on@ == on_pairs(lt@, rt@, lv, rv, i as nat),
            decreases n - i,
        {
            if i == 0 {
                on.append("ON ");
            } else {
                on.append(" AND ");
            }
            on.append(lt);
            on.append(".");
            on.append(l[i]);
            on.append(" = ");
            on.append(rt);
            on.append(".");
            on.append(r[i]);
            i += 1;
        }
        let mut res = String::new();
        res.append("JOIN ");
        res.append(lt);
        res.append(" ");
        res.append(on.as_str());
        res
    }
}

} // verus!
