use sql_builder::clause::{clause, Clause, Term};
use sql_builder::select::{SelectBuilder, Table};
use sql_builder::value::Value;

fn eq(name: &str, v: i64) -> Clause {
    clause(vec![Term::Compare(name.to_string(), Value::Int(v))])
}

#[test]
fn projection_defaults_to_star() {
    let mut b = SelectBuilder::new();
    b.from("users");
    assert_eq!(b.build().to_string(), "SELECT * FROM users  ");
}

#[test]
fn select_lists_columns() {
    let mut b = SelectBuilder::new();
    b.select(&["a", "b"]).from("t");
    assert_eq!(b.build().to_string(), "SELECT a, b FROM t  ");
}

#[test]
fn select_twice_appends() {
    let mut b = SelectBuilder::new();
    b.select(&["a"]).select(&["b", "c"]);
    assert_eq!(b.build().to_string(), "SELECT a, b, c   ");
}

#[test]
fn empty_leading_column_adds_no_separator() {
    let mut b = SelectBuilder::new();
    b.select(&["", "b"]);
    assert_eq!(b.build().to_string(), "SELECT b   ");
}

#[test]
fn alias_applies_to_its_table_only() {
    let mut b = SelectBuilder::new();
    b.from("users").from(("orders", "o"));
    assert_eq!(b.build().to_string(), "SELECT * FROM users, orders AS o  ");
}

#[test]
fn tables_from_owned_strings() {
    let name = "a".to_string();
    let mut b = SelectBuilder::new();
    b.from(&name).from(name.clone()).from(("b".to_string(), "x".to_string()));
    b.from(Table::aliased("c", "y")).from(Table::new("d"));
    assert_eq!(b.build().to_string(), "SELECT * FROM a, a, b AS x, c AS y, d  ");
}

#[test]
fn two_filters_wrap_first() {
    let mut b = SelectBuilder::new();
    b.from("t").where_clause(eq("x", 1)).where_clause(eq("y", 2));
    assert_eq!(b.build().to_string(), "SELECT * FROM t  WHERE (x = 1) AND (y = 2)");
}

#[test]
fn single_filter_is_bare() {
    let mut b = SelectBuilder::new();
    b.from("t").where_clause(eq("x", 1));
    assert_eq!(b.build().to_string(), "SELECT * FROM t  WHERE x = 1");
}

#[test]
fn wrapped_first_filter_is_not_wrapped_again() {
    let mut first = Clause::new();
    first.push("(a = 1)".to_string());
    let mut b = SelectBuilder::new();
    b.from("t").where_clause(first).where_clause(eq("y", 2));
    assert_eq!(b.build().to_string(), "SELECT * FROM t  WHERE (a = 1) AND (y = 2)");
}

#[test]
fn half_wrapped_first_filter_is_wrapped() {
    let mut first = Clause::new();
    first.push("(a = 1) OR b = 2".to_string());
    let mut b = SelectBuilder::new();
    b.from("t").where_clause(first).where_clause(eq("y", 2));
    assert_eq!(b.build().to_string(), "SELECT * FROM t  WHERE ((a = 1) OR b = 2) AND (y = 2)");
}

#[test]
fn invalid_filter_is_dropped() {
    let mut b = SelectBuilder::new();
    b.from("t").where_clause(Clause::new()).where_clause(eq("x", 1));
    assert_eq!(b.build().to_string(), "SELECT * FROM t  WHERE x = 1");
}

#[test]
fn only_invalid_filter_gives_no_where() {
    let mut b = SelectBuilder::new();
    b.from("t").where_clause(Clause::new());
    assert_eq!(b.build().to_string(), "SELECT * FROM t  ");
}

#[test]
fn join_without_condition() {
    let mut b = SelectBuilder::new();
    b.from("a").inner_join("t", Clause::new());
    assert_eq!(b.build().to_string(), "SELECT * FROM a  INNER JOIN t ");
}

#[test]
fn join_with_condition() {
    let mut on = Clause::new();
    on.push("a = b".to_string());
    let mut b = SelectBuilder::new();
    b.from("a").inner_join("t", on);
    assert_eq!(b.build().to_string(), "SELECT * FROM a  INNER JOIN t ON a = b ");
}

#[test]
fn full_statement() {
    let mut on = Clause::new();
    on.push("u.id = o.user_id".to_string());
    let mut b = SelectBuilder::new();
    b.select(&["u.name", "o.total"])
        .from(("users", "u"))
        .inner_join(("orders", "o"), on)
        .where_clause(eq("u.id", 7));
    let s = b.build();
    assert_eq!(
        s.to_string(),
        "SELECT u.name, o.total FROM users AS u  INNER JOIN orders AS o ON u.id = o.user_id WHERE u.id = 7"
    );
}

#[test]
fn build_leaves_builder_unchanged() {
    let mut b = SelectBuilder::new();
    b.from("t");
    let first = b.build().to_string();
    let second = b.build().to_string();
    assert_eq!(first, second);
}

#[test]
fn no_table_gives_no_from() {
    let mut b = SelectBuilder::new();
    assert_eq!(b.build().to_string(), "SELECT *   ");
}
