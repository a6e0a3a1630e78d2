//! Tests of the key/value store grammar and the sequential lookup.

use javardry_spoiler::kvs;
use javardry_spoiler::util;
use javardry_spoiler::GrammarError;

#[test]
fn parse_single_assignment() {
    let (store, dups) = kvs::parse("FOO = \"bar\"").expect("well-formed line");
    assert_eq!(store.len(), 1);
    assert_eq!(store.get("FOO").expect("key present").as_str(), "bar");
    assert!(dups.is_empty());
}

#[test]
fn parse_duplicate_key_keeps_later_value_and_warns() {
    let (store, dups) = kvs::parse("FOO = \"a\"\nFOO = \"b\"").expect("well-formed lines");
    assert_eq!(store.len(), 1);
    assert_eq!(store.get("FOO").expect("key present").as_str(), "b");
    assert_eq!(dups.len(), 1);
    assert_eq!(dups[0].key.as_str(), "FOO");
    assert_eq!(dups[0].old_value.as_str(), "a");
}

#[test]
fn parse_tolerates_whitespace_and_blank_lines() {
    let (store, dups) = kvs::parse("\n  A_1=\"x\"  \n\n\tB  =  \"y z\"\r\n").expect("well-formed");
    assert_eq!(store.len(), 2);
    assert_eq!(store.get("A_1").expect("present").as_str(), "x");
    assert_eq!(store.get("B").expect("present").as_str(), "y z");
    assert!(dups.is_empty());
    assert!(store.get("C").is_none());
}

#[test]
fn parse_empty_value() {
    let (store, _) = kvs::parse("K = \"\"").expect("well-formed");
    assert_eq!(store.get("K").expect("present").as_str(), "");
}

#[test]
fn parse_missing_equals_fails() {
    let r = kvs::parse("FOO bar\"");
    assert_eq!(r.err().expect("must fail"), GrammarError::MissingEquals { line: 0 });
}

#[test]
fn parse_missing_key_fails() {
    let r = kvs::parse("= \"v\"");
    assert_eq!(r.err().expect("must fail"), GrammarError::NoKey { line: 0 });
}

#[test]
fn parse_missing_open_quote_fails() {
    let r = kvs::parse("GOOD = \"v\"\nFOO = bar");
    assert_eq!(r.err().expect("must fail"), GrammarError::MissingOpenQuote { line: 1 });
}

#[test]
fn parse_missing_close_quote_fails() {
    let r = kvs::parse("FOO = \"bar");
    assert_eq!(r.err().expect("must fail"), GrammarError::MissingCloseQuote { line: 0 });
}

#[test]
fn iter_seq_stops_at_first_gap() {
    let text = "Item0 = \"a\"\nItem1 = \"b\"\nItem3 = \"c\"";
    let (store, _) = kvs::parse(text).expect("well-formed");
    let run = store.iter_seq("Item");
    assert_eq!(run.len(), 2);
    assert_eq!(run[0].as_str(), "a");
    assert_eq!(run[1].as_str(), "b");
}

#[test]
fn iter_seq_empty_when_index_zero_absent() {
    let (store, _) = kvs::parse("Item1 = \"a\"").expect("well-formed");
    assert_eq!(store.iter_seq("Item").len(), 0);
}

#[test]
fn insert_overwrites_and_returns_old_value() {
    let mut store = kvs::Kvs::new();
    assert!(store.insert("K".chars().collect(), String::from("1")).is_none());
    let old = store.insert("K".chars().collect(), String::from("2"));
    assert_eq!(old.expect("was present").as_str(), "1");
    assert_eq!(store.get("K").expect("present").as_str(), "2");
    assert_eq!(store.len(), 1);
}

#[test]
fn get_or_falls_back() {
    let (store, _) = kvs::parse("A = \"x\"").expect("well-formed");
    assert_eq!(store.get_or("A", "d"), "x");
    assert_eq!(store.get_or("B", "d"), "d");
}

#[test]
fn trim_ascii_trims_both_ends() {
    assert_eq!(util::trim_ascii(" \t a b \r\n"), "a b");
    assert_eq!(util::trim_ascii("   "), "");
    assert_eq!(util::trim_start_ascii("  a "), "a ");
}
