use squeel::dml::complex::{Join, JoinState};
use squeel::dml::simple;
use squeel::dml::{Command, Query};
use squeel::objects::{Columns, Entity as TableEntity, Table, TableModel};
use squeel::{
    entity_table_text, parameter_positions, result_text, DatabaseResponse, Entity, Statement,
};

fn users() -> Table {
    Table { name: "users", cols: vec!["id", "name"] }
}

fn orders() -> Table {
    Table { name: "orders", cols: vec!["order_id", "user_id"] }
}

#[test]
fn plain_select() {
    let q = Query::new(Command::SELECT, vec!["id", "name"], users());
    assert_eq!(q.build(), "SELECT id, name FROM users FOR JSON PATH;");
}

#[test]
fn select_without_columns() {
    let q = Query::new(Command::SELECT, vec![], users());
    assert_eq!(q.build(), "SELECT  FROM users FOR JSON PATH;");
}

#[test]
fn select_with_limit() {
    let q = Query::new(Command::SELECT, vec!["id", "name"], users()).limit(5);
    assert_eq!(q.build(), "SELECT TOP 5 id, name FROM users FOR JSON PATH;");
}

#[test]
fn limit_zero_negative_and_extremes() {
    let q = Query::new(Command::SELECT, vec!["id"], users()).limit(0);
    assert_eq!(q.build(), "SELECT TOP 0 id FROM users FOR JSON PATH;");
    let q = Query::new(Command::SELECT, vec!["id"], users()).limit(-42);
    assert_eq!(q.build(), "SELECT TOP -42 id FROM users FOR JSON PATH;");
    let q = Query::new(Command::SELECT, vec!["id"], users()).limit(i64::MIN);
    assert_eq!(q.build(), "SELECT TOP -9223372036854775808 id FROM users FOR JSON PATH;");
    let q = Query::new(Command::SELECT, vec!["id"], users()).limit(i64::MAX);
    assert_eq!(q.build(), "SELECT TOP 9223372036854775807 id FROM users FOR JSON PATH;");
}

#[test]
fn second_limit_wins() {
    let a = Query::new(Command::SELECT, vec!["id"], users()).limit(3).limit(10);
    let b = Query::new(Command::SELECT, vec!["id"], users()).limit(10);
    assert_eq!(a.build(), b.build());
}

#[test]
fn join_from_right_then_on() {
    let q = Query::new(Command::SELECT, vec!["id"], users())
        .join(Join::from_right(orders(), vec!["user_id"]))
        .on(vec!["id"]);
    assert_eq!(
        q.build(),
        "SELECT id FROM users JOIN users ON users.id = orders.user_id FOR JSON PATH;"
    );
}

#[test]
fn join_from_left_then_on() {
    let q = Query::new(Command::SELECT, vec!["id"], users())
        .join(Join::from_left(orders(), vec!["user_id"]))
        .on(vec!["id"]);
    assert_eq!(
        q.build(),
        "SELECT id FROM users JOIN orders ON orders.user_id = users.id FOR JSON PATH;"
    );
}

#[test]
fn join_with_limit() {
    let q = Query::new(Command::SELECT, vec!["id"], users())
        .limit(7)
        .join(Join::from_right(orders(), vec!["user_id"]))
        .on(vec!["id"]);
    assert_eq!(
        q.build(),
        "SELECT TOP 7 id FROM users JOIN users ON users.id = orders.user_id FOR JSON PATH;"
    );
}

#[test]
fn join_completes_state_and_sides() {
    let q = Query::new(Command::SELECT, vec!["id"], users())
        .join(Join::from_right(orders(), vec!["user_id"]))
        .on(vec!["id"]);
    let expected = Join::new(users(), vec!["id"], orders(), vec!["user_id"]).build();
    let built = q.build();
    assert!(built.contains(&expected));
}

#[test]
fn on_twice_is_on_once() {
    let once = Query::new(Command::SELECT, vec!["id"], users())
        .join(Join::from_right(orders(), vec!["user_id"]))
        .on(vec!["id"]);
    let twice = Query::new(Command::SELECT, vec!["id"], users())
        .join(Join::from_right(orders(), vec!["user_id"]))
        .on(vec!["id"])
        .on(vec!["name"]);
    assert_eq!(once.build(), twice.build());
}

#[test]
fn join_several_pairs() {
    let j = Join::new(users(), vec!["id", "name"], orders(), vec!["user_id", "order_id"]);
    assert_eq!(
        j.build(),
        "JOIN users ON users.id = orders.user_id AND users.name = orders.order_id"
    );
}

#[test]
fn join_pairs_stop_at_shorter_list() {
    let j = Join::new(users(), vec!["id", "name", "email"], orders(), vec!["user_id"]);
    assert_eq!(j.build(), "JOIN users ON users.id = orders.user_id");
    let j = Join::new(users(), vec!["id"], orders(), vec![]);
    assert_eq!(j.build(), "JOIN users ");
}

#[test]
fn join_constructors() {
    let j = Join::from_right(orders(), vec!["user_id"]);
    assert!(matches!(j.state, JoinState::Incomplete));
    assert!(j.l_tbl.is_none() && j.l_col.is_none());
    assert_eq!(j.r_tbl.as_ref().unwrap().name, "orders");
    assert_eq!(j.r_col, Some(vec!["user_id"]));
    let j = Join::from_left(orders(), vec!["user_id"]);
    assert!(matches!(j.state, JoinState::Incomplete));
    assert!(j.r_tbl.is_none() && j.r_col.is_none());
    assert_eq!(j.l_tbl.as_ref().unwrap().name, "orders");
    let j = Join::new(users(), vec!["id"], orders(), vec!["user_id"]);
    assert!(matches!(j.state, JoinState::Complete));
}

#[test]
fn text_query_build() {
    let q = simple::Query::new(simple::Command::SELECT, "a, b", "t");
    assert_eq!(q.build(), "SELECT a, b FROM t  FOR JSON PATH;");
}

#[test]
fn every_query_text_has_select_frame() {
    let texts = vec![
        Query::new(Command::SELECT, vec!["id"], users()).build(),
        Query::new(Command::SELECT, vec!["id"], users()).limit(1).build(),
        Query::new(Command::SELECT, vec!["id"], users())
            .join(Join::from_left(orders(), vec!["user_id"]))
            .on(vec!["id"])
            .build(),
    ];
    for t in texts {
        assert!(t.starts_with("SELECT "));
        assert!(t.ends_with(" FOR JSON PATH;"));
        assert!(!t.contains(" WHERE "));
    }
}

#[test]
fn statements() {
    let s: Statement<String> = Statement::new("SELECT 1".to_string());
    assert_eq!(s.cmd(), "SELECT 1");
    assert!(s.params.is_none());
    let s = Statement::new_parametized("SELECT ?".to_string(), vec!["x"]);
    assert_eq!(s.cmd(), "SELECT ?");
    assert_eq!(s.params, Some(vec!["x"]));
}

#[test]
fn rows_as_text() {
    let rows = vec![
        vec![Some("1".to_string()), None],
        vec![Some("x".to_string()), Some("y".to_string())],
    ];
    assert_eq!(result_text(&rows), "1\tNULL\nx\ty");
    assert_eq!(result_text(&vec![]), "");
    assert_eq!(result_text(&vec![vec![]]), "");
    assert_eq!(result_text(&vec![vec![None]]), "NULL");
}

#[test]
fn responses() {
    match DatabaseResponse::from_rows(Some(vec![vec![Some("a".to_string())]])) {
        DatabaseResponse::Results(t) => assert_eq!(t, "a"),
        _ => panic!("expected results"),
    }
    match DatabaseResponse::from_rows(None) {
        DatabaseResponse::Message(m) => assert_eq!(m, "Query complete."),
        _ => panic!("expected a message"),
    }
    let e = DatabaseResponse::Error("bad".to_string());
    assert!(matches!(e, DatabaseResponse::Error(ref m) if m == "bad"));
}

#[test]
fn parameter_positions_follow_first_occurrence() {
    assert_eq!(parameter_positions(&vec!["a", "b", "c"]), vec![1, 2, 3]);
    assert_eq!(parameter_positions(&vec!["a", "b", "a"]), vec![1, 2, 1]);
    assert_eq!(parameter_positions(&vec![]), Vec::<u16>::new());
}

#[test]
fn derive_text() {
    let fields = vec!["id".to_string(), "name".to_string()];
    assert_eq!(entity_table_text(&fields, "User"), "SELECT id,name FROM User FOR JSON PATH;");
}

struct User;

impl TableEntity for User {
    fn entity_table() -> TableModel {
        unreachable!()
    }

    fn table_column() -> (Vec<&'static str>, &'static str) {
        (vec!["id", "name"], "users")
    }
}

impl Entity for User {
    fn table_text() -> vstd::seq::Seq<char> {
        unreachable!()
    }

    fn as_table() -> String {
        entity_table_text(&vec!["id".to_string(), "name".to_string()], "User")
    }
}

#[test]
fn entity_defaults() {
    assert_eq!(
        <User as TableEntity>::query().build(),
        "SELECT id, name FROM users FOR JSON PATH;"
    );
    let t = <User as TableEntity>::table();
    assert_eq!(t.name, "users");
    assert_eq!(t.cols, vec!["id", "name"]);
    let j = <User as TableEntity>::as_join(vec!["user_id"]);
    assert!(matches!(j.state, JoinState::Incomplete));
    assert_eq!(j.r_tbl.unwrap().name, "users");
    assert_eq!(j.r_col, Some(vec!["user_id"]));
    let s = <User as TableEntity>::find();
    assert_eq!(s.cmd(), "SELECT id, name FROM users FOR JSON PATH;");
    let s = <User as Entity>::find();
    assert_eq!(s.cmd(), "SELECT id,name FROM User FOR JSON PATH;");
    assert!(s.params.is_none());
    let c = Columns { cols: vec!["a"] };
    assert_eq!(c.cols.len(), 1);
}
