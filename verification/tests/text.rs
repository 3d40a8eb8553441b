use rs_tgbot::decimal::push_decimal;
use rs_tgbot::bot::commands::soul_name;
use rs_tgbot::text::{chars_of, contains, find, replace, trim};

#[test]
fn trim_strips_unicode_whitespace() {
    assert_eq!(trim("  hi there \n\t"), "hi there");
    assert_eq!(trim("\u{3000}x\u{00A0}"), "x");
    assert_eq!(trim("   "), "");
    assert_eq!(trim(""), "");
}

#[test]
fn find_gives_first_match_in_chars() {
    let s = chars_of("aé</think>b</think>");
    let p = chars_of("</think>");
    assert_eq!(find(&s, &p), Some(2));
    assert_eq!(find(&chars_of("abc"), &p), None);
}

#[test]
fn contains_and_replace() {
    assert!(contains("hi @TestBot!", "@TestBot"));
    assert!(!contains("hi @Test", "@TestBot"));
    assert_eq!(replace("@TestBot hi @TestBot", "@TestBot", ""), " hi ");
    assert_eq!(replace("aaa", "aa", "b"), "ba");
    assert_eq!(replace("ab", "", "X"), "XaXbX");
    assert_eq!(replace("", "", "X"), "X");
}

#[test]
fn soul_names() {
    assert_eq!(soul_name("  AlPhA "), Some("alpha".to_string()));
    assert_eq!(soul_name("ÉVE"), Some("éve".to_string()));
    assert_eq!(soul_name("a b"), None);
    assert_eq!(soul_name(" \t "), None);
    assert_eq!(soul_name("a\tb"), Some("a\tb".to_string()));
}

#[test]
fn decimal_forms() {
    let mut s = String::new();
    push_decimal(&mut s, -9223372036854775808);
    assert_eq!(s, "-9223372036854775808");
    let mut s = String::from("x");
    push_decimal(&mut s, 1070);
    assert_eq!(s, "x1070");
}
