use protobug::line_wrap::{split_to, LineWrap};

#[test]
fn string_split_to() {
    let mut s = "".to_owned();
    assert_eq!(split_to(&mut s, 0), None);
    assert_eq!(s, "");

    let mut s = "".to_owned();
    assert_eq!(split_to(&mut s, 1), None);
    assert_eq!(s, "");

    let mut s = "foobar".to_owned();
    assert_eq!(split_to(&mut s, 0), Some("foobar".to_owned()));
    assert_eq!(s, "");

    let mut s = "foobar".to_owned();
    assert_eq!(split_to(&mut s, 10), None);
    assert_eq!(s, "foobar");

    let mut s = "foobar".to_owned();
    assert_eq!(split_to(&mut s, 3), Some("bar".to_owned()));
    assert_eq!(s, "foo");
}

#[test]
fn line_wrapper() {
    assert_eq!(LineWrap::new("".to_owned(), 0).wrapped().0, "\n");
    assert_eq!(LineWrap::new("".to_owned(), 1).wrapped().0, "\n");

    assert_eq!(LineWrap::new("foo".to_owned(), 3).wrapped().0, "foo\n");
    assert_eq!(LineWrap::new("foo".to_owned(), 6).wrapped().0, "foo\n");

    assert_eq!(LineWrap::new("foobar".to_owned(), 3).wrapped().0, "foo\nbar\n");
}

#[test]
fn line_wrapper_counts() {
    assert_eq!(LineWrap::new("".to_owned(), 4).wrapped(), ("\n".to_owned(), 1));
    assert_eq!(LineWrap::new("foobar".to_owned(), 3).wrapped(), ("foo\nbar\n".to_owned(), 2));
    assert_eq!(LineWrap::new("foobarb".to_owned(), 3).wrapped(), ("foo\nbar\nb\n".to_owned(), 3));
    // degenerate width: the whole string as one line
    assert_eq!(LineWrap::new("abc".to_owned(), 0).wrapped(), ("abc\n".to_owned(), 1));
}

#[test]
fn line_wrapper_reassembles_input() {
    let input = "a string cut into many small pieces".to_owned();
    for w in 1..10usize {
        let (wrapped, lines) = LineWrap::new(input.clone(), w).wrapped();
        let glued: String = wrapped.split('\n').collect::<Vec<_>>().join("");
        assert_eq!(glued, input);
        let expected_lines = if w <= input.len() {
            input.len().div_ceil(w)
        } else {
            1
        };
        assert_eq!(lines, expected_lines);
    }
}
