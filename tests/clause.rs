use sql_builder::clause::{clause, comparison, group, or_clause, Clause, ClauseType, Term};
use sql_builder::value::Value;

#[test]
fn comparison_with_null() {
    assert_eq!(comparison("age", &Value::Null), "age IS NULL");
}

#[test]
fn comparison_with_boolean() {
    assert_eq!(comparison("active", &Value::Boolean(true)), "CAST(active AS INTEGER) = 1");
    assert_eq!(comparison("active", &Value::Boolean(false)), "CAST(active AS INTEGER) = 0");
}

#[test]
fn comparison_with_string() {
    assert_eq!(comparison("name", &Value::from("bob")), "name = 'bob'");
    assert_eq!(comparison("n", &Value::Int(3)), "n = 3");
}

#[test]
fn empty_clause_is_invalid() {
    let c = Clause::new();
    assert!(!c.valid());
    assert_eq!(c.to_string(), "");
    assert_eq!(c.kind(), ClauseType::And);
    assert!(!Clause::default().valid());
}

#[test]
fn push_makes_clause_valid() {
    let mut c = Clause::new();
    c.push("x = 1".to_string());
    assert!(c.valid());
    assert_eq!(c.to_string(), "x = 1");
}

#[test]
fn three_fragments_and_or() {
    let mut a = Clause::new();
    let mut o = Clause::new_or();
    for f in ["f1", "f2", "f3"] {
        a.push(f.to_string());
        o.push(f.to_string());
    }
    assert_eq!(a.to_string(), "f1 AND f2 AND f3");
    assert_eq!(o.to_string(), "f1 OR f2 OR f3");
    assert_eq!(o.kind(), ClauseType::Or);
}

#[test]
fn group_of_alternatives() {
    let g = group("name", ClauseType::Or, &vec![Value::from("a"), Value::from("b")]);
    assert_eq!(g, "(name = 'a' OR name = 'b')");
    let h = group("x", ClauseType::And, &vec![Value::Null, Value::Boolean(true)]);
    assert_eq!(h, "(x IS NULL AND CAST(x AS INTEGER) = 1)");
}

#[test]
fn group_inside_and_clause() {
    let c = clause(vec![
        Term::Compare("id".to_string(), Value::Int(1)),
        Term::Group("name".to_string(), ClauseType::Or, vec![Value::from("a"), Value::from("b")]),
    ]);
    assert_eq!(c.to_string(), "id = 1 AND (name = 'a' OR name = 'b')");
}

#[test]
fn or_clause_from_terms() {
    let c = or_clause(vec![
        Term::Compare("a".to_string(), Value::Null),
        Term::Compare("b".to_string(), Value::UInt(2)),
    ]);
    assert_eq!(c.kind(), ClauseType::Or);
    assert_eq!(c.to_string(), "a IS NULL OR b = 2");
}

#[test]
fn nested_valid_clause_is_parenthesized() {
    let inner = or_clause(vec![
        Term::Compare("a".to_string(), Value::Int(1)),
        Term::Compare("b".to_string(), Value::Int(2)),
    ]);
    let outer = clause(vec![Term::Compare("c".to_string(), Value::Int(3)), Term::Nested(inner)]);
    assert_eq!(outer.to_string(), "c = 3 AND (a = 1 OR b = 2)");
}

#[test]
fn nested_invalid_clause_leaves_nothing() {
    let outer = clause(vec![Term::Nested(Clause::new()), Term::Compare("c".to_string(), Value::Int(3))]);
    assert_eq!(outer.to_string(), "c = 3");
    assert!(!clause(vec![Term::Nested(Clause::new_or())]).valid());
    assert!(!clause(vec![]).valid());
}

#[test]
fn push_term_adds_one_fragment() {
    let mut c = Clause::new_or();
    c.push_term(&Term::Compare("x".to_string(), Value::Boolean(false)));
    assert_eq!(c.to_string(), "CAST(x AS INTEGER) = 0");
}

#[test]
fn clause_as_value_is_parenthesized_text() {
    let c = clause(vec![Term::Compare("a".to_string(), Value::Int(1))]);
    let v = Value::from(c);
    assert!(matches!(&v, Value::Raw(s) if s == "(a = 1)"));
    assert_eq!(v.to_string(), "(a = 1)");
}

#[test]
fn empty_clause_as_value_is_bare_parentheses() {
    assert_eq!(Value::from(Clause::new()).to_string(), "()");
}

#[test]
fn clause_value_compares_unquoted() {
    let c = clause(vec![Term::Compare("a".to_string(), Value::Int(1))]);
    assert_eq!(comparison("x", &Value::from(c)), "x = (a = 1)");
}
