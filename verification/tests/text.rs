use mdcore::error::CoreError;
use mdcore::ids::ConnIds;
use mdcore::node_map::NodeMap;
use mdcore::text::{decimal_text, eq_ignore_ascii_case, find_from, is_blank, join, same_text, trim, trim_end_char};

#[test]
fn trimming() {
    assert_eq!(trim("  a b\t\n"), "a b");
    assert_eq!(trim("\u{a0}\u{3000}x\u{2028}"), "x");
    assert_eq!(trim(" \t "), "");
    assert_eq!(trim_end_char("a//", '/'), "a");
    assert_eq!(trim_end_char("/a", '/'), "/a");
    assert!(is_blank(" \u{2003}"));
    assert!(is_blank(""));
    assert!(!is_blank(" x"));
}

#[test]
fn searching_and_comparing() {
    assert_eq!(find_from("http://h/p", "://", 0), Some(4));
    assert_eq!(find_from("http://h/p", "/", 7), Some(8));
    assert_eq!(find_from("abc", "x", 0), None);
    assert_eq!(find_from("abc", "c", 9), None);
    assert!(eq_ignore_ascii_case("TcP", "tcp"));
    assert!(!eq_ignore_ascii_case("tcp ", "tcp"));
    assert!(!eq_ignore_ascii_case("É", "é"));
    assert!(same_text("é", "é"));
    assert_eq!(decimal_text(0), "0");
    assert_eq!(decimal_text(u64::MAX), "18446744073709551615");
    assert_eq!(join("a", "b"), "ab");
}

#[test]
fn node_map_keeps_order_and_values() {
    let mut m: NodeMap<u64> = NodeMap::new();
    m.insert("b".to_string(), 1);
    m.insert("a".to_string(), 2);
    m.insert("b".to_string(), 3);
    assert_eq!(m.len(), 2);
    assert_eq!(m.keys(), vec!["b".to_string(), "a".to_string()]);
    assert_eq!(m.get("b"), Some(&3));
    assert_eq!(m.get("c"), None);
    assert!(m.contains_key("a"));
    assert_eq!(m.remove("b"), Some(3));
    assert_eq!(m.remove("b"), None);
    assert_eq!((m.key_at(0).as_str(), *m.value_at(0)), ("a", 2));
    assert_eq!(m.remove_at(0), 2);
    assert_eq!(m.len(), 0);
}

#[test]
fn connection_ids_have_ranges() {
    let mut ids = ConnIds::new();
    assert_eq!((ids.next_ws(), ids.next_ws()), (1, 2));
    assert_eq!((ids.next_punch(), ids.next_punch()), (1_000_000, 1_000_001));
    assert_eq!((ids.next_rtc(), ids.next_rtc()), (2_000_000, 2_000_001));
}

#[test]
fn errors_carry_their_text() {
    let e = CoreError::from("boom".to_string());
    assert_eq!(e.message(), "boom");
    assert_eq!(CoreError::from("boom").message(), "boom");
    assert_eq!(String::from(CoreError::from("boom")), "boom");
    assert_eq!(String::from(CoreError::from("boom".to_string())), "boom");
    assert_eq!(String::from(CoreError::from_text("boom")), "boom");
}
