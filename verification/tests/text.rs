use kilam_launcher::text::{
    char_is_whitespace, concat2, concat3, decimal_string, ends_with_char, join, replace_char, split_char, trim,
};

#[test]
fn decimal_rendering() {
    assert_eq!(decimal_string(0), "0");
    assert_eq!(decimal_string(7), "7");
    assert_eq!(decimal_string(2048), "2048");
    assert_eq!(decimal_string(u64::MAX), "18446744073709551615");
}

#[test]
fn trimming_removes_unicode_whitespace() {
    assert_eq!(trim("  a b \t\n"), "a b");
    assert_eq!(trim("\u{3000}x\u{00a0}"), "x");
    assert_eq!(trim("   "), "");
    assert_eq!(trim(""), "");
    assert_eq!(trim(trim(" q ")), trim(" q "));
}

#[test]
fn splitting_on_a_character() {
    assert_eq!(split_char("a:b:c", ':'), vec!["a", "b", "c"]);
    assert_eq!(split_char("", ':'), vec![""]);
    assert_eq!(split_char(":x:", ':'), vec!["", "x", ""]);
}

#[test]
fn replacing_and_joining() {
    assert_eq!(replace_char("net.fabricmc.x", '.', '/'), "net/fabricmc/x");
    let parts = vec!["a".to_string(), "b".to_string(), "c".to_string()];
    assert_eq!(join(&parts, ":"), "a:b:c");
    assert_eq!(join(&vec![], ":"), "");
    assert_eq!(concat2("ab", "cd"), "abcd");
    assert_eq!(concat3("a", "b", "c"), "abc");
    assert!(ends_with_char("dir/", '/'));
    assert!(!ends_with_char("", '/'));
}

#[test]
fn whitespace_class_matches_std() {
    for v in 0u32..=0x10FFFF {
        if let Some(c) = char::from_u32(v) {
            assert_eq!(char_is_whitespace(c), c.is_whitespace(), "U+{:04X}", v);
        }
    }
}
