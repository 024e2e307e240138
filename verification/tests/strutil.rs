use protobug::strutil::{copy_lines, json_text_depth, split_lines, trim_end_spaces};

#[test]
fn split_lines_keeps_empty_segments() {
    assert_eq!(split_lines("a\nb"), vec!["a".to_string(), "b".to_string()]);
    assert_eq!(split_lines(""), vec![String::new()]);
    assert_eq!(
        split_lines("a\n\nb\n"),
        vec!["a".to_string(), String::new(), "b".to_string(), String::new()]
    );
}

#[test]
fn trim_end_spaces_removes_trailing_whitespace_only() {
    assert_eq!(trim_end_spaces("CCo=\n"), "CCo=");
    assert_eq!(trim_end_spaces("  a b \t\r\n"), "  a b");
    assert_eq!(trim_end_spaces("abc"), "abc");
    assert_eq!(trim_end_spaces("   "), "");
}

#[test]
fn trim_end_spaces_matches_the_unicode_whitespace_set() {
    assert_eq!(trim_end_spaces("abc\u{a0}\u{2028}\u{3000}"), "abc");
    assert_eq!(trim_end_spaces("abc\u{2003}"), "abc");
    assert_eq!("abc\u{a0} ".trim_end(), trim_end_spaces("abc\u{a0} "));
}

#[test]
fn json_text_depth_counts_nesting_outside_strings() {
    assert_eq!(json_text_depth(""), 0);
    assert_eq!(json_text_depth("42"), 0);
    assert_eq!(json_text_depth("{\"a\": 1}"), 1);
    assert_eq!(json_text_depth("{\"a\": [1, {\"b\": 2}]}"), 3);
    assert_eq!(json_text_depth("{\"a\": [1, {\"b\": []}]}"), 4);
    // braces inside string literals do not nest
    assert_eq!(json_text_depth("{\"a\": \"}{[[[\"}"), 1);
    assert_eq!(json_text_depth("{\"a\": \"\\\"[\"}"), 1);
    // unbalanced closers never push the level below zero
    assert_eq!(json_text_depth("}}{"), 1);
}

#[test]
fn copy_lines_copies_every_line() {
    let v = vec!["one".to_string(), "two".to_string()];
    assert_eq!(copy_lines(&v), v);
}
