use ted::dispatch::process_event;
use ted::events::{Effect, InputEvent, KeyCode, Modifiers};
use ted::textbuf::TextBuf;

fn key(buf: &mut TextBuf, code: KeyCode) -> Effect {
    process_event(InputEvent::KeyStroke(code, Modifiers::Plain), buf)
}

fn type_str(buf: &mut TextBuf, s: &str) {
    for ch in s.chars() {
        key(buf, KeyCode::Char(ch));
    }
}

fn lines_of(buf: &TextBuf) -> Vec<String> {
    buf.row_buffer.iter().map(|r| r.iter().collect()).collect()
}

#[test]
fn type_two_lines() {
    let mut buf = TextBuf::new(80, 24);
    type_str(&mut buf, "ab");
    key(&mut buf, KeyCode::Enter);
    type_str(&mut buf, "c");
    assert_eq!(lines_of(&buf), vec!["ab".to_string(), "c".to_string()]);
    assert_eq!(buf.cursor, (1, 1));
    assert!(buf.save_changed);
    assert!(buf.dirty);
}

#[test]
fn backspace_to_empty_line() {
    let mut buf = TextBuf::new(80, 24);
    type_str(&mut buf, "hello");
    assert_eq!(buf.cursor, (5, 0));
    for _ in 0..5 {
        key(&mut buf, KeyCode::Backspace);
    }
    assert_eq!(lines_of(&buf), vec!["".to_string()]);
    assert_eq!(buf.cursor, (0, 0));
}

#[test]
fn backspace_joins_lines_at_column_zero() {
    let mut buf = TextBuf::new(80, 24);
    type_str(&mut buf, "foo");
    key(&mut buf, KeyCode::Enter);
    type_str(&mut buf, "bar");
    key(&mut buf, KeyCode::Home);
    assert_eq!(buf.cursor, (0, 1));
    key(&mut buf, KeyCode::Backspace);
    assert_eq!(lines_of(&buf), vec!["foobar".to_string()]);
    assert_eq!(buf.cursor, (3, 0));
}

#[test]
fn backspace_at_origin_is_a_no_op() {
    let mut buf = TextBuf::new(80, 24);
    key(&mut buf, KeyCode::Backspace);
    assert_eq!(buf.row_buffer.len(), 0);
    assert_eq!(buf.cursor, (0, 0));
    assert!(buf.save_changed);
}

#[test]
fn backspace_removes_empty_second_line() {
    let mut buf = TextBuf::new(80, 24);
    type_str(&mut buf, "ab");
    key(&mut buf, KeyCode::Enter);
    assert_eq!(buf.cursor, (0, 1));
    key(&mut buf, KeyCode::Backspace);
    assert_eq!(lines_of(&buf), vec!["ab".to_string()]);
    assert_eq!(buf.cursor, (2, 0));
}

#[test]
fn enter_in_middle_splits_line() {
    let mut buf = TextBuf::new(80, 24);
    type_str(&mut buf, "abcd");
    key(&mut buf, KeyCode::Left);
    key(&mut buf, KeyCode::Left);
    key(&mut buf, KeyCode::Enter);
    assert_eq!(lines_of(&buf), vec!["ab".to_string(), "cd".to_string()]);
    assert_eq!(buf.cursor, (0, 1));
}

#[test]
fn enter_on_empty_document_makes_two_lines() {
    let mut buf = TextBuf::new(80, 24);
    key(&mut buf, KeyCode::Enter);
    assert_eq!(lines_of(&buf), vec!["".to_string(), "".to_string()]);
    assert_eq!(buf.cursor, (0, 1));
}

#[test]
fn tab_inserts_four_spaces() {
    let mut buf = TextBuf::new(80, 24);
    type_str(&mut buf, "ab");
    key(&mut buf, KeyCode::Home);
    key(&mut buf, KeyCode::Tab);
    assert_eq!(lines_of(&buf), vec!["    ab".to_string()]);
    assert_eq!(buf.cursor, (4, 0));
}

#[test]
fn delete_forward_removes_under_cursor() {
    let mut buf = TextBuf::new(80, 24);
    type_str(&mut buf, "abc");
    key(&mut buf, KeyCode::Home);
    key(&mut buf, KeyCode::Delete);
    assert_eq!(lines_of(&buf), vec!["bc".to_string()]);
    assert_eq!(buf.cursor, (0, 0));
}

#[test]
fn delete_forward_at_line_end_joins_next_line() {
    let mut buf = TextBuf::new(80, 24);
    type_str(&mut buf, "ab");
    key(&mut buf, KeyCode::Enter);
    type_str(&mut buf, "cd");
    key(&mut buf, KeyCode::Up);
    assert_eq!(buf.cursor, (2, 0));
    key(&mut buf, KeyCode::Delete);
    assert_eq!(lines_of(&buf), vec!["abcd".to_string()]);
    assert_eq!(buf.cursor, (2, 0));
}

#[test]
fn delete_forward_on_empty_document_is_a_no_op() {
    let mut buf = TextBuf::new(80, 24);
    key(&mut buf, KeyCode::Delete);
    assert_eq!(buf.row_buffer.len(), 0);
    assert_eq!(buf.cursor, (0, 0));
}

#[test]
fn delete_forward_on_last_row_end_is_a_no_op() {
    let mut buf = TextBuf::new(80, 24);
    type_str(&mut buf, "ab");
    key(&mut buf, KeyCode::Delete);
    assert_eq!(lines_of(&buf), vec!["ab".to_string()]);
}

#[test]
fn uppercase_modifier_chars_are_ignored() {
    let mut buf = TextBuf::new(80, 24);
    let eff = process_event(
        InputEvent::KeyStroke(KeyCode::Char('a'), Modifiers::Other),
        &mut buf,
    );
    assert_eq!(eff, Effect::Nothing);
    assert_eq!(buf.row_buffer.len(), 0);
}

#[test]
fn save_chord_requests_save() {
    let mut buf = TextBuf::new(80, 24);
    buf.dirty = false;
    let eff = process_event(
        InputEvent::KeyStroke(KeyCode::Char('s'), Modifiers::Control),
        &mut buf,
    );
    assert_eq!(eff, Effect::SaveRequested);
    assert!(buf.dirty);
}

#[test]
fn quit_chord_requests_quit() {
    let mut buf = TextBuf::new(80, 24);
    let eff = process_event(
        InputEvent::KeyStroke(KeyCode::Char('q'), Modifiers::Control),
        &mut buf,
    );
    assert_eq!(eff, Effect::QuitRequested);
    assert_eq!(buf.row_buffer.len(), 0);
}

#[test]
fn escape_reaches_the_host_unchanged() {
    let mut buf = TextBuf::new(80, 24);
    type_str(&mut buf, "x");
    let before = lines_of(&buf);
    let eff = key(&mut buf, KeyCode::Esc);
    assert_eq!(eff, Effect::Nothing);
    assert_eq!(lines_of(&buf), before);
}

#[test]
fn invariant_holds_through_edits() {
    let mut buf = TextBuf::new(80, 24);
    assert!(buf.check_inv());
    type_str(&mut buf, "one");
    key(&mut buf, KeyCode::Enter);
    type_str(&mut buf, "two longer");
    key(&mut buf, KeyCode::Up);
    key(&mut buf, KeyCode::Backspace);
    key(&mut buf, KeyCode::Delete);
    key(&mut buf, KeyCode::Enter);
    assert!(buf.check_inv());
}
