//! The operations on text that the generators are built on.

use pisserror::pattern::{positional_names, push_delimited, push_refs, push_skips};
use pisserror::text::{push_decimal, push_joined, same_text};

fn decimal(n: usize) -> String {
    let mut out = String::from("_");
    push_decimal(&mut out, n);
    out
}

#[test]
fn numerals_are_decimal() {
    assert_eq!(decimal(0), "_0");
    assert_eq!(decimal(7), "_7");
    assert_eq!(decimal(9), "_9");
    assert_eq!(decimal(10), "_10");
    assert_eq!(decimal(11), "_11");
    assert_eq!(decimal(99), "_99");
    assert_eq!(decimal(100), "_100");
    assert_eq!(decimal(1234567890), "_1234567890");
    assert_eq!(decimal(usize::MAX), format!("_{}", usize::MAX));
    for n in 0..2000 {
        assert_eq!(decimal(n), format!("_{n}"));
    }
}

#[test]
fn positional_fields_are_named_by_their_position() {
    assert_eq!(positional_names(0), Vec::<String>::new());
    assert_eq!(positional_names(3), vec!["_0", "_1", "_2"]);
    assert_eq!(positional_names(12)[11], "_11");
}

#[test]
fn joining_puts_the_separator_between() {
    let join = |items: &[&str], sep: &str| {
        let items: Vec<String> = items.iter().map(|s| s.to_string()).collect();
        let mut out = String::from(">");
        push_joined(&mut out, &items, sep);
        out
    };
    assert_eq!(join(&[], ", "), ">");
    assert_eq!(join(&["a"], ", "), ">a");
    assert_eq!(join(&["a", "b"], ", "), ">a, b");
    assert_eq!(join(&["a", "", "c"], "::"), ">a::::c");
    assert_eq!(join(&["a", "b", "c"], ""), ">abc");
}

#[test]
fn delimiters_go_around() {
    let names = vec!["a".to_string(), "b".to_string()];
    let mut out = String::from("P");
    push_delimited(&mut out, "(", &names, ")");
    assert_eq!(out, "P(a, b)");
    push_refs(&mut out, "{", &names, "}");
    assert_eq!(out, "P(a, b){ref a, ref b}");
    push_refs(&mut out, "(", &Vec::new(), ")");
    assert_eq!(out, "P(a, b){ref a, ref b}()");
    let mut out = String::from("Q");
    push_skips(&mut out, 0);
    assert_eq!(out, "Q()");
    push_skips(&mut out, 1);
    assert_eq!(out, "Q()(_)");
    push_skips(&mut out, 3);
    assert_eq!(out, "Q()(_)(_, _, _)");
}

#[test]
fn texts_are_compared_by_what_they_hold() {
    assert!(same_text("from", "from"));
    assert!(same_text("", ""));
    assert!(!same_text("from", "From"));
    assert!(!same_text("from", "fro"));
    assert!(!same_text("from", "from "));
    assert!(same_text("💦 💛", "💦 💛"));
}
