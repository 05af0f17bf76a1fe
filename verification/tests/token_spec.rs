use katex::types::class_list::{ClassList, ClassListIter};
use katex::types::tokens::{Token, TokenText};
use katex::types::SourceLocation;
use std::sync::Arc;

#[test]
fn token_text_slice_borrows_a_range() {
    let source = Arc::new("hello world".to_string());
    let text = TokenText::slice(Arc::clone(&source), 6, 11);
    assert_eq!(text.as_str(), "world");
    assert_eq!(text.len(), 5);
    assert!(!text.is_empty());
    assert_eq!(text.to_owned_string(), "world");
    let mut buffer = String::from("junk");
    text.clone_into(&mut buffer);
    assert_eq!(buffer, "world");
}

#[test]
fn token_text_owned_and_static() {
    let owned = TokenText::Owned("alpha".to_string());
    assert_eq!(owned.as_str(), "alpha");
    assert_eq!(owned.len(), 5);
    let fixed = TokenText::Static("EOF");
    assert_eq!(fixed.as_str(), "EOF");
    assert_eq!(fixed.len(), 3);
    let empty = TokenText::Owned(String::new());
    assert!(empty.is_empty());
}

#[test]
fn token_new_and_set_text() {
    let loc = Some(SourceLocation { start: 2, end: 5 });
    let mut token = Token::new(TokenText::Static("abc"), loc);
    assert_eq!(token.text(), "abc");
    assert_eq!(token.loc, loc);
    assert_eq!(token.noexpand, None);
    assert_eq!(token.treat_as_relax, None);
    token.set_text(TokenText::Owned("xyz".to_string()));
    assert_eq!(token.text(), "xyz");
    assert_eq!(token.loc, loc);
}

#[test]
fn token_range_spans_from_start_to_end() {
    let first = Token::new(TokenText::Static("a"), Some(SourceLocation { start: 1, end: 2 }));
    let last = Token::new(TokenText::Static("b"), Some(SourceLocation { start: 7, end: 9 }));
    let combined = first.range(last, TokenText::Static("ab")).expect("both spans are present");
    assert_eq!(combined.loc, Some(SourceLocation { start: 1, end: 9 }));
    assert_eq!(combined.text(), "ab");

    let unlocated = Token::new(TokenText::Static("a"), None);
    let last = Token::new(TokenText::Static("b"), Some(SourceLocation { start: 7, end: 9 }));
    assert!(unlocated.range(last, TokenText::Static("ab")).is_none());
}

fn collect(mut iter: ClassListIter<'_>) -> Vec<String> {
    let mut out = Vec::new();
    while let Some(class) = iter.next() {
        out.push(class.to_string());
    }
    out
}

#[test]
fn class_list_empty() {
    let list = ClassList::Empty;
    assert!(list.is_empty());
    assert_eq!(list.len(), 0);
    assert_eq!(list.first(), None);
    assert_eq!(list.get(0), None);
    assert!(!list.contains("mord"));
    assert!(collect(list.iter()).is_empty());
}

#[test]
fn class_list_static() {
    let list = ClassList::Static("mord");
    assert!(!list.is_empty());
    assert_eq!(list.len(), 1);
    assert_eq!(list.first(), Some("mord"));
    // A single static class answers for every index.
    assert_eq!(list.get(5), Some("mord"));
    assert!(list.contains("mord"));
    assert!(!list.contains("mbin"));
    assert_eq!(collect(list.iter()), vec!["mord".to_string()]);
}

#[test]
fn class_list_static_empty_string() {
    let list = ClassList::Static("");
    // The empty static class still counts as one entry...
    assert!(!list.is_empty());
    assert_eq!(list.len(), 1);
    // ...but the iterator skips it.
    assert!(collect(list.iter()).is_empty());
}

#[test]
fn class_list_const_skips_empty_entries_when_iterating() {
    const CLASSES: &[&str] = &["mbin", "", "mrel"];
    let list = ClassList::Const(CLASSES);
    assert_eq!(list.len(), 3);
    assert_eq!(list.first(), Some("mbin"));
    assert_eq!(list.get(2), Some("mrel"));
    assert_eq!(list.get(3), None);
    assert!(list.contains(""));
    assert_eq!(collect(list.iter()), vec!["mbin".to_string(), "mrel".to_string()]);
}

#[test]
fn class_list_push_ignores_empty_classes() {
    let mut list = ClassList::Static("mord");
    list.push(String::new());
    // An ignored push leaves the list as it was.
    assert_eq!(list.len(), 1);
    list.push("mtight".to_string());
    assert_eq!(list.len(), 2);
    assert_eq!(list.get(0), Some("mord"));
    assert_eq!(list.get(1), Some("mtight"));
    assert!(list.contains("mtight"));
}

#[test]
fn class_list_insert_places_a_class() {
    let mut list = ClassList::Const(&["a", "c"]);
    list.insert(1, "b".to_string());
    assert_eq!(collect(list.iter()), vec!["a".to_string(), "b".to_string(), "c".to_string()]);
    list.insert(0, String::new());
    assert_eq!(list.len(), 3);
}

#[test]
fn class_list_reserve_converts_to_owned() {
    let mut list = ClassList::Static("mord");
    list.reserve(0);
    assert!(matches!(list, ClassList::Static(_)));
    list.reserve(4);
    assert!(matches!(list, ClassList::Owned(_)));
    assert_eq!(list.len(), 1);
    assert_eq!(list.first(), Some("mord"));
}

#[test]
fn class_list_converting_drops_the_empty_static_class() {
    let mut list = ClassList::Static("");
    list.push("x".to_string());
    assert_eq!(list.len(), 1);
    assert_eq!(list.first(), Some("x"));
}

#[test]
fn class_list_owned_round_trip() {
    let mut list = ClassList::Empty;
    list.push("one".to_string());
    list.push("two".to_string());
    assert_eq!(list.len(), 2);
    assert!(list.contains("one"));
    assert!(list.contains("two"));
    assert!(!list.contains("three"));
    assert_eq!(collect(list.iter()), vec!["one".to_string(), "two".to_string()]);
}
