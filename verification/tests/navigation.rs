use ted::dispatch::process_event;
use ted::events::{InputEvent, KeyCode, Modifiers, MouseInput, MouseKind};
use ted::textbuf::TextBuf;
use ted::viewport::{
    cursor_screen_pos, filler_char, viewport_bounding, visible_line, visible_row_range,
};

fn key(buf: &mut TextBuf, code: KeyCode) {
    process_event(InputEvent::KeyStroke(code, Modifiers::Plain), buf);
}

fn type_str(buf: &mut TextBuf, s: &str) {
    for ch in s.chars() {
        key(buf, KeyCode::Char(ch));
    }
}

fn ten_lines(columns: u16, rows: u16) -> TextBuf {
    let mut buf = TextBuf::new(columns, rows);
    type_str(&mut buf, "line 0");
    for i in 1..10 {
        key(&mut buf, KeyCode::Enter);
        type_str(&mut buf, &format!("line {}", i));
    }
    buf
}

#[test]
fn up_snaps_column_to_shorter_line() {
    let mut buf = TextBuf::new(80, 24);
    type_str(&mut buf, "ab");
    key(&mut buf, KeyCode::Enter);
    type_str(&mut buf, "longer");
    key(&mut buf, KeyCode::Up);
    assert_eq!(buf.cursor, (2, 0));
}

#[test]
fn up_at_top_moves_to_line_start() {
    let mut buf = TextBuf::new(80, 24);
    type_str(&mut buf, "abc");
    key(&mut buf, KeyCode::Up);
    assert_eq!(buf.cursor, (0, 0));
}

#[test]
fn down_snaps_column_to_shorter_line() {
    let mut buf = TextBuf::new(80, 24);
    type_str(&mut buf, "longer");
    key(&mut buf, KeyCode::Enter);
    type_str(&mut buf, "ab");
    key(&mut buf, KeyCode::Up);
    key(&mut buf, KeyCode::End);
    assert_eq!(buf.cursor, (6, 0));
    key(&mut buf, KeyCode::Down);
    assert_eq!(buf.cursor, (2, 1));
}

#[test]
fn down_at_bottom_moves_to_line_end() {
    let mut buf = TextBuf::new(80, 24);
    type_str(&mut buf, "abc");
    key(&mut buf, KeyCode::Home);
    key(&mut buf, KeyCode::Down);
    assert_eq!(buf.cursor, (3, 0));
}

#[test]
fn down_on_empty_document_stays_at_origin() {
    let mut buf = TextBuf::new(80, 24);
    key(&mut buf, KeyCode::Down);
    key(&mut buf, KeyCode::Up);
    key(&mut buf, KeyCode::Left);
    key(&mut buf, KeyCode::Right);
    key(&mut buf, KeyCode::End);
    key(&mut buf, KeyCode::Home);
    assert_eq!(buf.cursor, (0, 0));
    assert!(buf.check_inv());
}

#[test]
fn left_wraps_to_previous_line_end() {
    let mut buf = TextBuf::new(80, 24);
    type_str(&mut buf, "abc");
    key(&mut buf, KeyCode::Enter);
    key(&mut buf, KeyCode::Left);
    assert_eq!(buf.cursor, (3, 0));
}

#[test]
fn right_wraps_to_next_line_start() {
    let mut buf = TextBuf::new(80, 24);
    type_str(&mut buf, "ab");
    key(&mut buf, KeyCode::Enter);
    type_str(&mut buf, "cd");
    key(&mut buf, KeyCode::Up);
    assert_eq!(buf.cursor, (2, 0));
    key(&mut buf, KeyCode::Right);
    assert_eq!(buf.cursor, (0, 1));
}

#[test]
fn right_at_document_end_stays() {
    let mut buf = TextBuf::new(80, 24);
    type_str(&mut buf, "ab");
    key(&mut buf, KeyCode::Right);
    assert_eq!(buf.cursor, (2, 0));
}

#[test]
fn page_down_and_up_use_page_stride() {
    let mut buf = ten_lines(80, 4);
    key(&mut buf, KeyCode::Home);
    for _ in 0..9 {
        key(&mut buf, KeyCode::Up);
    }
    assert_eq!(buf.cursor, (0, 0));
    key(&mut buf, KeyCode::PageDown);
    assert_eq!(buf.cursor.1, 3);
    key(&mut buf, KeyCode::PageDown);
    assert_eq!(buf.cursor.1, 6);
    key(&mut buf, KeyCode::PageDown);
    assert_eq!(buf.cursor.1, 9);
    key(&mut buf, KeyCode::PageDown);
    assert_eq!(buf.cursor.1, 9);
    key(&mut buf, KeyCode::PageUp);
    assert_eq!(buf.cursor.1, 6);
    key(&mut buf, KeyCode::PageUp);
    key(&mut buf, KeyCode::PageUp);
    key(&mut buf, KeyCode::PageUp);
    assert_eq!(buf.cursor.1, 0);
}

#[test]
fn cursor_at_last_row_pulls_viewport_down_minimally() {
    let mut buf = ten_lines(80, 3);
    assert_eq!(buf.cursor.1, 9);
    assert_eq!(buf.viewport_v_offset, 0);
    viewport_bounding(&mut buf);
    assert_eq!(buf.viewport_v_offset, 7);
}

#[test]
fn reconcile_keeps_cursor_inside_window() {
    let mut buf = ten_lines(40, 3);
    viewport_bounding(&mut buf);
    let v = buf.viewport_v_offset;
    let h = buf.viewport_h_offset;
    assert!(v <= buf.cursor.1 && buf.cursor.1 < v + buf.dimensions.1 as usize);
    assert!(h <= buf.cursor.0 && buf.cursor.0 < h + buf.dimensions.0 as usize);
}

#[test]
fn reconcile_twice_gives_same_offsets() {
    let mut buf = ten_lines(80, 3);
    viewport_bounding(&mut buf);
    let v_once = buf.viewport_v_offset;
    let h_once = buf.viewport_h_offset;
    viewport_bounding(&mut buf);
    assert_eq!(buf.viewport_v_offset, v_once);
    assert_eq!(buf.viewport_h_offset, h_once);
}

#[test]
fn reconcile_moves_window_up_to_cursor() {
    let mut buf = ten_lines(80, 3);
    viewport_bounding(&mut buf);
    assert_eq!(buf.viewport_v_offset, 7);
    for _ in 0..9 {
        key(&mut buf, KeyCode::Up);
    }
    assert_eq!(buf.cursor.1, 0);
    viewport_bounding(&mut buf);
    assert_eq!(buf.viewport_v_offset, 0);
}

#[test]
fn scroll_down_moves_window_and_snaps_cursor() {
    let mut buf = ten_lines(80, 3);
    for _ in 0..9 {
        key(&mut buf, KeyCode::Up);
    }
    assert_eq!(buf.cursor.1, 0);
    let wheel = MouseInput { kind: MouseKind::ScrollDown, column: 0, row: 0 };
    process_event(InputEvent::Mouse(wheel), &mut buf);
    assert_eq!(buf.viewport_v_offset, 1);
    assert_eq!(buf.cursor.1, 1);
    for _ in 0..10 {
        process_event(InputEvent::Mouse(wheel), &mut buf);
    }
    assert_eq!(buf.viewport_v_offset, 7);
}

#[test]
fn scroll_up_moves_window_and_snaps_cursor() {
    let mut buf = ten_lines(80, 3);
    viewport_bounding(&mut buf);
    assert_eq!(buf.viewport_v_offset, 7);
    assert_eq!(buf.cursor.1, 9);
    let wheel = MouseInput { kind: MouseKind::ScrollUp, column: 0, row: 0 };
    process_event(InputEvent::Mouse(wheel), &mut buf);
    assert_eq!(buf.viewport_v_offset, 6);
    assert_eq!(buf.cursor.1, 8);
    for _ in 0..10 {
        process_event(InputEvent::Mouse(wheel), &mut buf);
    }
    assert_eq!(buf.viewport_v_offset, 0);
    assert_eq!(buf.cursor.1, 2);
}

#[test]
fn click_sets_cursor_with_offsets() {
    let mut buf = ten_lines(80, 3);
    viewport_bounding(&mut buf);
    assert_eq!(buf.viewport_v_offset, 7);
    let press = MouseInput { kind: MouseKind::Press, column: 2, row: 1 };
    process_event(InputEvent::Mouse(press), &mut buf);
    assert_eq!(buf.cursor, (2, 8));
}

#[test]
fn click_past_content_snaps_to_nearest_cell() {
    let mut buf = TextBuf::new(80, 24);
    type_str(&mut buf, "ab");
    let press = MouseInput { kind: MouseKind::Press, column: 70, row: 20 };
    process_event(InputEvent::Mouse(press), &mut buf);
    assert_eq!(buf.cursor, (2, 0));
}

#[test]
fn click_on_empty_document_changes_nothing() {
    let mut buf = TextBuf::new(80, 24);
    buf.dirty = false;
    let press = MouseInput { kind: MouseKind::Press, column: 3, row: 4 };
    process_event(InputEvent::Mouse(press), &mut buf);
    assert_eq!(buf.cursor, (0, 0));
    assert!(buf.dirty);
}

#[test]
fn resize_updates_dimensions_only() {
    let mut buf = TextBuf::new(80, 24);
    buf.dirty = false;
    process_event(InputEvent::Resize(100, 40), &mut buf);
    assert_eq!(buf.dimensions, (100, 40));
    assert!(!buf.dirty);
}

#[test]
fn visible_rows_are_clipped_to_document() {
    let mut buf = ten_lines(80, 3);
    viewport_bounding(&mut buf);
    let (vstart, vend) = visible_row_range(&buf);
    assert_eq!((vstart, vend), (7, 10));
    let short = TextBuf::new(80, 24);
    assert_eq!(visible_row_range(&short), (0, 0));
}

#[test]
fn visible_line_is_clipped_horizontally() {
    let mut buf = TextBuf::new(3, 24);
    type_str(&mut buf, "abcdefgh");
    buf.viewport_h_offset = 2;
    let v = visible_line(&buf, 0);
    assert_eq!(v, vec!['c', 'd', 'e', 'f']);
    buf.viewport_h_offset = 20;
    let empty = visible_line(&buf, 0);
    assert!(empty.is_empty());
}

#[test]
fn screen_position_is_cursor_minus_offsets() {
    let mut buf = ten_lines(80, 3);
    viewport_bounding(&mut buf);
    let (x, y) = cursor_screen_pos(&buf);
    assert_eq!((x, y), (6, 2));
}

#[test]
fn scroll_on_empty_document_changes_no_offsets() {
    let mut buf = TextBuf::new(80, 3);
    let down = MouseInput { kind: MouseKind::ScrollDown, column: 0, row: 0 };
    let up = MouseInput { kind: MouseKind::ScrollUp, column: 0, row: 0 };
    process_event(InputEvent::Mouse(down), &mut buf);
    assert_eq!(buf.viewport_v_offset, 0);
    process_event(InputEvent::Mouse(up), &mut buf);
    assert_eq!(buf.viewport_v_offset, 0);
    assert_eq!(buf.cursor, (0, 0));
    assert!(buf.check_inv());
}

#[test]
fn scroll_stops_when_document_fits_the_window() {
    let mut buf = TextBuf::new(80, 24);
    type_str(&mut buf, "a");
    key(&mut buf, KeyCode::Enter);
    type_str(&mut buf, "b");
    let down = MouseInput { kind: MouseKind::ScrollDown, column: 0, row: 0 };
    process_event(InputEvent::Mouse(down), &mut buf);
    assert_eq!(buf.viewport_v_offset, 0);
}

#[test]
fn other_mouse_kinds_change_nothing() {
    let mut buf = ten_lines(80, 3);
    buf.dirty = false;
    let drag = MouseInput { kind: MouseKind::Other, column: 5, row: 1 };
    process_event(InputEvent::Mouse(drag), &mut buf);
    assert_eq!(buf.cursor, (6, 9));
    assert!(!buf.dirty);
}

#[test]
fn page_keys_on_empty_document_stay_at_origin() {
    let mut buf = TextBuf::new(80, 0);
    key(&mut buf, KeyCode::PageDown);
    key(&mut buf, KeyCode::PageUp);
    assert_eq!(buf.cursor, (0, 0));
    assert!(buf.check_inv());
}

#[test]
fn filler_is_tilde_only_at_left_edge() {
    let mut buf = TextBuf::new(80, 24);
    assert_eq!(filler_char(&buf), '~');
    buf.viewport_h_offset = 1;
    assert_eq!(filler_char(&buf), ' ');
}
