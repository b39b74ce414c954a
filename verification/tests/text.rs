use web_routes::text::{join, same, strip_prefix, trim, trim_end, trim_start};

#[test]
fn texts_are_compared_by_their_characters() {
    assert!(same("", ""));
    assert!(same("a\u{e9}b", "a\u{e9}b"));
    assert!(!same("a", "b"));
    assert!(!same("a", "ab"));
    assert!(!same("\u{e9}", "\u{e8}"));
}

#[test]
fn a_prefix_is_stripped_once() {
    assert_eq!(strip_prefix("aab", "a"), Some("ab"));
    assert_eq!(strip_prefix("\u{e9}b", "\u{e9}"), Some("b"));
    assert_eq!(strip_prefix("a", "a"), Some(""));
    assert_eq!(strip_prefix("a", ""), Some("a"));
    assert_eq!(strip_prefix("a", "ab"), None);
    assert_eq!(strip_prefix("ba", "a"), None);
}

#[test]
fn trimming_takes_runs_off_the_ends() {
    assert_eq!(trim("//a/b//", '/'), "a/b");
    assert_eq!(trim("///", '/'), "");
    assert_eq!(trim("", '/'), "");
    assert_eq!(trim_start("##a#", '#'), "a#");
    assert_eq!(trim_end("#a##", '#'), "#a");
    assert_eq!(trim("/\u{e9}/", '/'), "\u{e9}");
}

#[test]
fn joining_keeps_the_order() {
    assert_eq!(join("a", "b"), "ab");
    assert_eq!(join("", ""), "");
}
