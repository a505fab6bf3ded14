use canvasbot::scalar::Scalar;
use canvasbot::store::{IntLookup, VariableStore};

fn store_with(entries: Vec<(&str, Option<Scalar>)>) -> VariableStore {
    let mut s = VariableStore::new();
    for (name, value) in entries {
        s.declare(name.to_string(), value);
    }
    s
}

#[test]
fn substitution_of_int_yields_decimal_text() {
    let s = store_with(vec![("count", Some(Scalar::Int(5)))]);
    assert_eq!(s.lookup_display("count"), Some("5".to_string()));
}

#[test]
fn display_of_each_scalar_kind() {
    let s = store_with(vec![
        ("n", Some(Scalar::Int(-42))),
        ("t", Some(Scalar::Str("hello".to_string()))),
        ("y", Some(Scalar::Bool(true))),
        ("z", Some(Scalar::Bool(false))),
    ]);
    assert_eq!(s.lookup_display("n"), Some("-42".to_string()));
    assert_eq!(s.lookup_display("t"), Some("hello".to_string()));
    assert_eq!(s.lookup_display("y"), Some("true".to_string()));
    assert_eq!(s.lookup_display("z"), Some("false".to_string()));
}

#[test]
fn undeclared_and_unset_have_no_display() {
    let s = store_with(vec![("declared", None)]);
    assert!(s.is_declared("declared"));
    assert!(!s.is_declared("missing"));
    assert_eq!(s.lookup_display("declared"), None);
    assert_eq!(s.lookup_display("missing"), None);
}

#[test]
fn set_touches_only_declared_names() {
    let mut s = store_with(vec![("url", None)]);
    assert!(s.set("url", Scalar::Str("http://x".to_string())));
    assert_eq!(s.lookup_display("url"), Some("http://x".to_string()));
    assert!(!s.set("other", Scalar::Int(1)));
    assert_eq!(s.lookup_display("other"), None);
}

#[test]
fn add_to_int_adds_in_place() {
    let mut s = store_with(vec![("score", Some(Scalar::Int(10)))]);
    assert!(s.add_to_int("score", 15));
    assert_eq!(s.lookup_int("score"), IntLookup::Value(25));
    assert!(s.add_to_int("score", -30));
    assert_eq!(s.lookup_int("score"), IntLookup::Value(-5));
}

#[test]
fn add_to_int_ignores_missing_or_non_integers() {
    let mut s = store_with(vec![
        ("text", Some(Scalar::Str("x".to_string()))),
        ("unset", None),
    ]);
    assert!(!s.add_to_int("text", 1));
    assert!(!s.add_to_int("unset", 1));
    assert!(!s.add_to_int("missing", 1));
    assert_eq!(s.lookup_display("text"), Some("x".to_string()));
}

#[test]
fn add_to_int_wraps_at_the_ceiling() {
    let mut s = store_with(vec![("n", Some(Scalar::Int(i64::MAX)))]);
    assert!(s.add_to_int("n", 1));
    assert_eq!(s.lookup_int("n"), IntLookup::Value(i64::MIN));
}

#[test]
fn lookup_int_reports_how_an_entry_is_missing() {
    let s = store_with(vec![
        ("n", Some(Scalar::Int(3))),
        ("t", Some(Scalar::Str("x".to_string()))),
        ("u", None),
    ]);
    assert_eq!(s.lookup_int("n"), IntLookup::Value(3));
    assert_eq!(s.lookup_int("t"), IntLookup::NotInt);
    assert_eq!(s.lookup_int("u"), IntLookup::Unset);
    assert_eq!(s.lookup_int("w"), IntLookup::Undeclared);
}

#[test]
fn later_declaration_of_same_name_wins() {
    let s = store_with(vec![("a", Some(Scalar::Int(1))), ("a", Some(Scalar::Int(2)))]);
    assert_eq!(s.lookup_int("a"), IntLookup::Value(2));
}
