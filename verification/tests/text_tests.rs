use project_ctl::text::{
    decimal_text, same_text, space_padded, strip_prefix, trim_trailing_separators, zero_padded,
};

#[test]
fn same_text_compares_character_for_character() {
    assert!(same_text("", ""));
    assert!(same_text("Cargo.toml", "Cargo.toml"));
    assert!(!same_text("Cargo.toml", "cargo.toml"));
    assert!(!same_text("Cargo.toml", "Cargo.toml "));
    assert!(!same_text("a", ""));
    assert!(same_text("na\u{ef}ve", "na\u{ef}ve"));
    assert!(!same_text("na\u{ef}ve", "naive"));
}

#[test]
fn decimal_text_writes_every_digit() {
    assert_eq!(decimal_text(0), "0");
    assert_eq!(decimal_text(7), "7");
    assert_eq!(decimal_text(10), "10");
    assert_eq!(decimal_text(1234567890), "1234567890");
    assert_eq!(decimal_text(u128::MAX), "340282366920938463463374607431768211455");
}

#[test]
fn zero_padded_fills_up_to_the_width() {
    assert_eq!(zero_padded(0, 4), "0000");
    assert_eq!(zero_padded(5, 4), "0005");
    assert_eq!(zero_padded(42, 4), "0042");
    assert_eq!(zero_padded(9999, 4), "9999");
    assert_eq!(zero_padded(10000, 4), "10000");
    assert_eq!(zero_padded(3, 0), "3");
    assert_eq!(zero_padded(3, 1), "3");
}

#[test]
fn space_padded_fills_behind_the_text() {
    assert_eq!(space_padded("", 4), "    ");
    assert_eq!(space_padded("R", 4), "R   ");
    assert_eq!(space_padded("2024", 5), "2024 ");
    assert_eq!(space_padded("exactly", 7), "exactly");
    assert_eq!(space_padded("longer than that", 4), "longer than that");
    assert_eq!(space_padded("\u{e9}t\u{e9}", 5), "\u{e9}t\u{e9}  ");
}

#[test]
fn strip_prefix_gives_what_follows() {
    assert_eq!(strip_prefix("/home/a/x", "/home/a"), Some("/x"));
    assert_eq!(strip_prefix("/home/a", "/home/a"), Some(""));
    assert_eq!(strip_prefix("abc", ""), Some("abc"));
    assert_eq!(strip_prefix("", ""), Some(""));
    assert_eq!(strip_prefix("/home", "/home/a"), None);
    assert_eq!(strip_prefix("/srv/a", "/home"), None);
    assert_eq!(strip_prefix("", "a"), None);
    assert_eq!(strip_prefix("\u{e9}t\u{e9}/x", "\u{e9}t\u{e9}"), Some("/x"));
    assert_eq!(strip_prefix("\u{e9}", "e"), None);
    assert_eq!(strip_prefix("\u{20ac}", "\u{a2}"), None);
}

#[test]
fn trailing_separators_are_taken_off() {
    assert_eq!(trim_trailing_separators("/a/"), "/a");
    assert_eq!(trim_trailing_separators("/a"), "/a");
    assert_eq!(trim_trailing_separators("/a///"), "/a");
    assert_eq!(trim_trailing_separators("/a/b/"), "/a/b");
    assert_eq!(trim_trailing_separators("/"), "");
    assert_eq!(trim_trailing_separators("//"), "");
    assert_eq!(trim_trailing_separators(""), "");
    assert_eq!(trim_trailing_separators("/\u{e9}t\u{e9}/"), "/\u{e9}t\u{e9}");
    assert_eq!(trim_trailing_separators("a\\"), "a\\");
}
