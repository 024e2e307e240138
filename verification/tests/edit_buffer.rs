use protobug::edit_buffer::{EditBuffer, InputEvent};

fn buffer(lines: &[&str]) -> EditBuffer {
    EditBuffer::from_lines(lines.iter().map(|l| l.to_string()).collect())
}

fn lines_of(b: &EditBuffer) -> Vec<String> {
    b.lines_ref().clone()
}

#[test]
fn empty_buffer_has_one_empty_line() {
    let b = buffer(&[]);
    assert_eq!(lines_of(&b), vec![String::new()]);
    assert_eq!(b.text(), "");
}

#[test]
fn text_joins_lines_with_a_space() {
    let b = buffer(&["{", "  \"x\": 42", "}"]);
    assert_eq!(b.text(), "{   \"x\": 42 }");
}

#[test]
fn char_insertion_moves_cursor() {
    let mut b = buffer(&["ab"]);
    b.apply(InputEvent::Char('x'));
    assert_eq!(lines_of(&b), vec!["xab".to_string()]);
    b.apply(InputEvent::Char('y'));
    assert_eq!(lines_of(&b), vec!["xyab".to_string()]);
}

#[test]
fn enter_splits_and_backspace_joins() {
    let mut b = buffer(&["abcd"]);
    b.apply(InputEvent::Right);
    b.apply(InputEvent::Right);
    b.apply(InputEvent::Enter);
    assert_eq!(lines_of(&b), vec!["ab".to_string(), "cd".to_string()]);
    // at the start of the second line, backspace joins the lines again
    b.apply(InputEvent::Backspace);
    assert_eq!(lines_of(&b), vec!["abcd".to_string()]);
}

#[test]
fn backspace_removes_the_previous_character() {
    let mut b = buffer(&["abc"]);
    b.apply(InputEvent::End);
    b.apply(InputEvent::Backspace);
    assert_eq!(lines_of(&b), vec!["ab".to_string()]);
}

#[test]
fn delete_removes_under_cursor_and_joins_at_line_end() {
    let mut b = buffer(&["ab", "cd"]);
    b.apply(InputEvent::Delete);
    assert_eq!(lines_of(&b), vec!["b".to_string(), "cd".to_string()]);
    b.apply(InputEvent::End);
    b.apply(InputEvent::Delete);
    assert_eq!(lines_of(&b), vec!["bcd".to_string()]);
}

#[test]
fn navigation_clamps_to_line_ends() {
    let mut b = buffer(&["abcdef", "ab"]);
    b.apply(InputEvent::End);
    b.apply(InputEvent::Down);
    // the column cannot pass the shorter line's end
    b.apply(InputEvent::Char('!'));
    assert_eq!(lines_of(&b), vec!["abcdef".to_string(), "ab!".to_string()]);
    b.apply(InputEvent::Home);
    b.apply(InputEvent::Char('#'));
    assert_eq!(lines_of(&b), vec!["abcdef".to_string(), "#ab!".to_string()]);
}

#[test]
fn noop_changes_nothing() {
    let mut b = buffer(&["abc"]);
    b.apply(InputEvent::Noop);
    assert_eq!(lines_of(&b), vec!["abc".to_string()]);
    assert_eq!(b.text(), "abc");
}
