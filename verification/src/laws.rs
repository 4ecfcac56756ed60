//! Properties that hold across the builders' operations.

use vstd::prelude::*;
use crate::dml::{query_text, where_part, Command, QueryModel};
use crate::dml::complex::{join_text, on_pairs, pair_count, JoinModel, JoinState};
use crate::objects::entity_query_model;
use crate::text::{int_text, joined};
use crate::objects::TableModel;
use crate::{bound_position, first_occurrence};

verus! {

/// Setting a row limit twice leaves the second limit: `q.limit(a).limit(b)`
/// is `q.limit(b)`.
pub proof fn limit_last_wins(q: QueryModel, a: i64, b: i64)
    ensures
        q.with_limit(a).with_limit(b) == q.with_limit(b),
{
}

/// A row limit does not change whether a query can be built: `q.limit(l)`
/// can be built exactly when `q` can.
pub proof fn limit_keeps_buildable(q: QueryModel, l: i64)
    ensures
        q.with_limit(l).buildable() == q.buildable(),
{
}

/// Joining a `SELECT` with the right-hand half of a join and then calling
/// `on(cols)` gives the complete join that `Join::new` would make, with the
/// query's own table on the left joined on `cols`; the query can then be
/// built.
pub proof fn join_right_then_on(q: QueryModel, t: TableModel, c: Seq<Seq<char>>, cols: Seq<Seq<char>>)
    requires
        q.cmd == Command::SELECT,
    ensures
        q.with_join(JoinModel::right_only(t, c)).with_on(cols).join == Some(
            JoinModel::complete(q.from, cols, t, c),
        ),
        q.with_join(JoinModel::right_only(t, c)).with_on(cols).buildable(),
{
}

/// The mirror of `join_right_then_on`: a left-hand half is completed with the
/// query's own table on the right, joined on `cols`.
pub proof fn join_left_then_on(q: QueryModel, t: TableModel, c: Seq<Seq<char>>, cols: Seq<Seq<char>>)
    requires
        q.cmd == Command::SELECT,
    ensures
        q.with_join(JoinModel::left_only(t, c)).with_on(cols).join == Some(
            JoinModel::complete(t, c, q.from, cols),
        ),
        q.with_join(JoinModel::left_only(t, c)).with_on(cols).buildable(),
{
}

/// `on` changes nothing once both sides of the join are known: a second
/// `on` after the first is without effect.
pub proof fn on_after_completion_is_noop(q: QueryModel, cols: Seq<Seq<char>>)
    requires
        q.join matches Some(j) && j.l_tbl is Some && j.r_tbl is Some && j.l_col is Some
            && j.r_col is Some,
    ensures
        q.with_on(cols) == q,
{
    let j = q.join.unwrap();
    assert(crate::dml::fill_join(j, q.from, cols) == j);
}

/// `on` is idempotent after a `join` with a half join:
/// `q.join(h).on(a).on(b)` is `q.join(h).on(a)`.
pub proof fn on_twice_is_on_once(q: QueryModel, h: JoinModel, a: Seq<Seq<char>>, b: Seq<Seq<char>>)
    requires
        h == JoinModel::right_only(h.r_tbl.unwrap(), h.r_col.unwrap()) || h == JoinModel::left_only(
            h.l_tbl.unwrap(),
            h.l_col.unwrap(),
        ),
    ensures
        q.with_join(h).with_on(a).with_on(b) == q.with_join(h).with_on(a),
{
    let once = q.with_join(h).with_on(a);
    on_after_completion_is_noop(once, b);
}

/// Every query text is a `SELECT` statement that asks for JSON: it starts
/// with `SELECT ` and ends with ` FOR JSON PATH;`.
pub proof fn query_text_frame(q: QueryModel)
    ensures
        query_text(q).len() >= 22,
        query_text(q).take(7) == "SELECT "@,
        query_text(q).skip(query_text(q).len() - 15) == " FOR JSON PATH;"@,
{
    reveal_strlit("SELECT ");
    reveal_strlit(" FOR JSON PATH;");
    let t = query_text(q);
    let head = "SELECT "@;
    let tail = " FOR JSON PATH;"@;
    let middle = crate::dml::top_text(q.limit) + crate::text::joined(q.cols, ", "@) + " FROM "@
        + q.from.name + crate::dml::join_part(q) + crate::dml::where_part(q.condition);
    assert(t =~= head + middle + tail);
    assert(t.take(7) =~= head);
    assert(t.skip(t.len() - 15) =~= tail);
}

/// Parameters that are all different are bound at positions 1, 2, 3, ...
/// in the order given (while positions fit in 16 bits).
pub proof fn distinct_parameters_bound_in_order(s: Seq<Seq<char>>, i: int, pos: u16)
    requires
        0 <= i < s.len(),
        s.len() < 65536,
        forall|a: int, b: int| 0 <= a < b < s.len() ==> s[a] != s[b],
        bound_position(s, i, pos),
    ensures
        pos == i + 1,
{
    let j = choose|j: int| #[trigger] first_occurrence(s, i, j) && pos as int == (j + 1) % 65536;
    assert(j == i);
}

/// One call of a query builder method, as it acts on the query's model.
pub enum BuildStep {
    /// `limit(l)`
    Limit(i64),
    /// `join(j)` with a join whose model is `j`
    Join(JoinModel),
    /// `on(cols)` with columns whose names are `cols`
    On(Seq<Seq<char>>),
}

/// The query after `steps`, applied in order to `q`.
pub open spec fn apply_steps(q: QueryModel, steps: Seq<BuildStep>) -> QueryModel
    decreases steps.len(),
{
    if steps.len() == 0 {
        q
    } else {
        let before = apply_steps(q, steps.drop_last());
        match steps.last() {
            BuildStep::Limit(l) => before.with_limit(l),
            BuildStep::Join(j) => before.with_join(j),
            BuildStep::On(cols) => before.with_on(cols),
        }
    }
}

/// Every step of `steps` meets its method's `requires` on the query it is
/// applied to: an `on` comes only after a join with at least one table.
pub open spec fn steps_allowed(q: QueryModel, steps: Seq<BuildStep>) -> bool
    decreases steps.len(),
{
    if steps.len() == 0 {
        true
    } else {
        let before = apply_steps(q, steps.drop_last());
        &&& steps_allowed(q, steps.drop_last())
        &&& (steps.last() is On ==> {
            &&& before.join is Some
            &&& !(before.join.unwrap().l_tbl is None && before.join.unwrap().r_tbl is None)
        })
    }
}

/// A query made by `Query::new` and then any sequence of `limit`, `join` and
/// `on` calls that all return normally never has a condition, and its join,
/// once it has one, is complete. So its text never has a `WHERE` part.
pub proof fn built_queries_have_no_condition(q: QueryModel, steps: Seq<BuildStep>)
    requires
        q.condition is None,
        q.join is None,
        steps_allowed(q, steps),
    ensures
        apply_steps(q, steps).condition is None,
        apply_steps(q, steps).join matches Some(j) ==> j.state == JoinState::Complete,
        where_part(apply_steps(q, steps).condition) == Seq::<char>::empty(),
    decreases steps.len(),
{
    if steps.len() > 0 {
        built_queries_have_no_condition(q, steps.drop_last());
    }
}

/// Giving a query without a limit or condition a row limit writes
/// `TOP <limit> ` right after `SELECT ` and leaves the rest of the text as
/// it was; the limit is written in decimal (see `text_laws`).
pub proof fn limit_writes_top(q: QueryModel, l: i64)
    requires
        q.limit is None,
        q.condition is None,
    ensures
        query_text(q.with_limit(l)) == "SELECT TOP "@ + int_text(l as int) + " "@ + query_text(q).skip(7),
{
    reveal_strlit("SELECT ");
    reveal_strlit("SELECT TOP ");
    reveal_strlit("TOP ");
    let rest = crate::text::joined(q.cols, ", "@) + " FROM "@ + q.from.name + crate::dml::join_part(q)
        + where_part(q.condition) + " FOR JSON PATH;"@;
    assert(crate::dml::join_part(q.with_limit(l)) == crate::dml::join_part(q));
    assert(query_text(q) =~= "SELECT "@ + rest);
    assert(query_text(q).skip(7) =~= rest);
    assert(query_text(q.with_limit(l)) =~= "SELECT TOP "@ + int_text(l as int) + " "@ + rest);
}

/// One equation of an `ON` clause: `<lead><left table>.<a> = <right table>.<b>`.
pub open spec fn equation(lead: Seq<char>, lt: Seq<char>, rt: Seq<char>, a: Seq<char>, b: Seq<char>) -> Seq<char> {
    lead + lt + "."@ + a + " = "@ + rt + "."@ + b
}

/// `part` occurs in `whole` at some position.
pub open spec fn occurs_in(part: Seq<char>, whole: Seq<char>) -> bool {
    exists|p: int| 0 <= p && p + part.len() <= whole.len() && #[trigger] whole.subrange(p, p + part.len()) == part
}

proof fn on_pairs_prefix(lt: Seq<char>, rt: Seq<char>, l: Seq<Seq<char>>, r: Seq<Seq<char>>, m: nat, n: nat)
    requires
        m <= n,
    ensures
        on_pairs(lt, rt, l, r, n).len() >= on_pairs(lt, rt, l, r, m).len(),
        on_pairs(lt, rt, l, r, n).subrange(0, on_pairs(lt, rt, l, r, m).len() as int) == on_pairs(lt, rt, l, r, m),
    decreases n,
{
    if m < n {
        on_pairs_prefix(lt, rt, l, r, m, (n - 1) as nat);
        let a = on_pairs(lt, rt, l, r, (n - 1) as nat);
        let b = on_pairs(lt, rt, l, r, n);
        let c = on_pairs(lt, rt, l, r, m);
        assert(b.subrange(0, a.len() as int) =~= a);
        assert(b.subrange(0, c.len() as int) =~= a.subrange(0, c.len() as int));
    } else {
        let c = on_pairs(lt, rt, l, r, m);
        assert(c.subrange(0, c.len() as int) =~= c);
    }
}

/// A join pairs up as many columns as the shorter list has.
pub proof fn join_pairs_shorter_list(l: Seq<Seq<char>>, r: Seq<Seq<char>>)
    ensures
        pair_count(l, r) <= l.len(),
        pair_count(l, r) <= r.len(),
        pair_count(l, r) == l.len() || pair_count(l, r) == r.len(),
{
}

/// The text of a join holds, for every pair of columns up to the length of
/// the shorter list, the equation of that pair: `ON lt.l0 = rt.r0` for the
/// first and ` AND lt.lk = rt.rk` for each later one.
pub proof fn join_text_has_every_pair(j: JoinModel, k: int)
    requires
        j.buildable(),
        0 <= k < j.l_col.unwrap().len(),
        k < j.r_col.unwrap().len(),
    ensures
        occurs_in(
            equation(
                if k == 0 { "ON "@ } else { " AND "@ },
                j.l_tbl.unwrap().name,
                j.r_tbl.unwrap().name,
                j.l_col.unwrap()[k],
                j.r_col.unwrap()[k],
            ),
            join_text(j),
        ),
{
    let lt = j.l_tbl.unwrap().name;
    let rt = j.r_tbl.unwrap().name;
    let l = j.l_col.unwrap();
    let r = j.r_col.unwrap();
    let n = pair_count(l, r);
    let e = equation(if k == 0 { "ON "@ } else { " AND "@ }, lt, rt, l[k], r[k]);
    on_pairs_prefix(lt, rt, l, r, (k + 1) as nat, n);
    let before = on_pairs(lt, rt, l, r, k as nat);
    let upto = on_pairs(lt, rt, l, r, (k + 1) as nat);
    assert(upto =~= before + e);
    let head = "JOIN "@ + lt + " "@;
    let t = join_text(j);
    let on = on_pairs(lt, rt, l, r, n);
    assert(t == head + on);
    let p: int = (head.len() + before.len()) as int;
    let b: int = before.len() as int;
    let el: int = e.len() as int;
    assert(on.subrange(0, upto.len() as int) == upto);
    assert(t.subrange(p, p + el) =~= e) by {
        assert(t.subrange(p, p + el) =~= on.subrange(b, b + el));
        assert(on.subrange(b, b + el) =~= upto.subrange(b, upto.len() as int));
    }
}

/// The query of an entity selects exactly the entity's columns from its
/// table: its text is `SELECT <columns joined by ", "> FROM <table> FOR JSON PATH;`.
pub proof fn entity_query_selects_its_columns(cols: Seq<Seq<char>>, name: Seq<char>)
    ensures
        entity_query_model(cols, name).cols == cols,
        entity_query_model(cols, name).from == (TableModel { name, cols }),
        entity_query_model(cols, name).buildable(),
        query_text(entity_query_model(cols, name)) == "SELECT "@ + joined(cols, ", "@) + " FROM "@ + name
            + " FOR JSON PATH;"@,
{
    let m = entity_query_model(cols, name);
    assert(crate::dml::top_text(m.limit) =~= Seq::<char>::empty());
    assert(crate::dml::join_part(m) =~= Seq::<char>::empty());
    assert(where_part(m.condition) =~= Seq::<char>::empty());
    assert(query_text(m) =~= "SELECT "@ + joined(cols, ", "@) + " FROM "@ + name + " FOR JSON PATH;"@);
}

} // verus!
