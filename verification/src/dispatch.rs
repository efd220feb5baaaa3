//! The edit operation dispatcher: an exhaustive transition function from
//! one abstract input event to one atomic document-and-cursor mutation.

use vstd::prelude::*;

use crate::TABLENGTH;
use crate::events::{Effect, InputEvent, KeyCode, KeyStroke, Modifiers, MouseInput, MouseKind};
use crate::textbuf::TextBuf;

verus! {

/// The fields that key handling never touches.
pub open spec fn keys_frame(pre: TextBuf, post: TextBuf) -> bool {
    &&& post.dimensions == pre.dimensions
    &&& post.viewport_v_offset == pre.viewport_v_offset
    &&& post.viewport_h_offset == pre.viewport_h_offset
    &&& post.filename == pre.filename
}

/// Nothing observable changed.
pub open spec fn unchanged(pre: TextBuf, post: TextBuf) -> bool {
    &&& post.lines() == pre.lines()
    &&& post.cursor == pre.cursor
    &&& post.save_changed == pre.save_changed
    &&& post.dirty == pre.dirty
    &&& keys_frame(pre, post)
}

/// The document with the cursor's row guaranteed to exist: an empty
/// document grows one empty line before a write lands in it.
pub open spec fn base_lines(pre: TextBuf) -> Seq<Seq<char>> {
    if pre.lines().len() == 0 {
        seq![Seq::<char>::empty()]
    } else {
        pre.lines()
    }
}

/// The column `col` snapped back onto `line` when the line is shorter.
pub open spec fn clamped_col(col: int, line: Seq<char>) -> int {
    if col > line.len() {
        line.len() as int
    } else {
        col
    }
}

/// Typing a printable character: it is inserted at the cursor and the
/// cursor moves one cell right.
pub open spec fn char_step(pre: TextBuf, c: char, post: TextBuf) -> bool {
    let base = base_lines(pre);
    &&& post.lines() == base.update(pre.row(), base[pre.row()].insert(pre.col(), c))
    &&& post.cursor.0 == pre.cursor.0 + 1
    &&& post.cursor.1 == pre.cursor.1
    &&& post.save_changed
    &&& post.dirty
    &&& keys_frame(pre, post)
}

/// Backspace: within a line the character left of the cursor goes; at
/// column zero the current line is merged into the previous one and the
/// cursor lands at the join point; at the origin nothing moves.
pub open spec fn backspace_step(pre: TextBuf, post: TextBuf) -> bool {
    &&& if pre.col() > 0 {
        &&& post.lines() == pre.lines().update(
            pre.row(),
            pre.line(pre.row()).remove(pre.col() - 1),
        )
        &&& post.cursor.0 == pre.cursor.0 - 1
        &&& post.cursor.1 == pre.cursor.1
    } else if pre.row() > 0 {
        &&& post.lines() == pre.lines().update(
            pre.row() - 1,
            pre.line(pre.row() - 1) + pre.line(pre.row()),
        ).remove(pre.row())
        &&& post.cursor.0 == pre.line(pre.row() - 1).len()
        &&& post.cursor.1 == pre.cursor.1 - 1
    } else {
        &&& post.lines() == pre.lines()
        &&& post.cursor == pre.cursor
    }
    &&& post.save_changed
    &&& post.dirty
    &&& keys_frame(pre, post)
}

/// Delete-forward: within a line the character under the cursor goes;
/// at the end of a line the next line is merged up; at the end of the
/// document nothing moves. The cursor stays put.
pub open spec fn delete_step(pre: TextBuf, post: TextBuf) -> bool {
    &&& if pre.lines().len() == 0 {
        post.lines() == pre.lines()
    } else if pre.col() < pre.line(pre.row()).len() {
        post.lines() == pre.lines().update(
            pre.row(),
            pre.line(pre.row()).remove(pre.col()),
        )
    } else if pre.row() + 1 < pre.lines().len() {
        post.lines() == pre.lines().update(
            pre.row(),
            pre.line(pre.row()) + pre.line(pre.row() + 1),
        ).remove(pre.row() + 1)
    } else {
        post.lines() == pre.lines()
    }
    &&& post.cursor == pre.cursor
    &&& post.save_changed
    &&& post.dirty
    &&& keys_frame(pre, post)
}

/// Enter: the line splits at the cursor, the suffix becomes a new line
/// below, and the cursor moves to the start of that new line.
pub open spec fn enter_step(pre: TextBuf, post: TextBuf) -> bool {
    let base = base_lines(pre);
    &&& post.lines() == base.update(pre.row(), base[pre.row()].take(pre.col())).insert(
        pre.row() + 1,
        base[pre.row()].skip(pre.col()),
    )
    &&& post.cursor.0 == 0
    &&& post.cursor.1 == pre.cursor.1 + 1
    &&& post.save_changed
    &&& post.dirty
    &&& keys_frame(pre, post)
}

/// Tab: `TABLENGTH` spaces are inserted at the cursor and the cursor
/// advances past them.
pub open spec fn tab_step(pre: TextBuf, post: TextBuf) -> bool {
    let base = base_lines(pre);
    let line = base[pre.row()];
    &&& post.lines() == base.update(
        pre.row(),
        line.take(pre.col()) + seq![' ', ' ', ' ', ' '] + line.skip(pre.col()),
    )
    &&& post.cursor.0 == pre.cursor.0 + TABLENGTH
    &&& post.cursor.1 == pre.cursor.1
    &&& post.save_changed
    &&& post.dirty
    &&& keys_frame(pre, post)
}

/// Arrow up: the row decrements and the column snaps onto the shorter
/// destination line; at the top row the column goes to zero.
pub open spec fn up_step(pre: TextBuf, post: TextBuf) -> bool {
    &&& if pre.row() > 0 {
        &&& post.cursor.1 == pre.cursor.1 - 1
        &&& post.cursor.0 == clamped_col(pre.col(), pre.line(pre.row() - 1))
    } else {
        &&& post.cursor.1 == pre.cursor.1
        &&& post.cursor.0 == 0
    }
    &&& nav_frame(pre, post)
}

/// Arrow down: the row increments and the column snaps onto the shorter
/// destination line; at the bottom row the column goes to the line end.
pub open spec fn down_step(pre: TextBuf, post: TextBuf) -> bool {
    &&& if pre.lines().len() == 0 {
        post.cursor == pre.cursor
    } else if pre.row() + 1 < pre.lines().len() {
        &&& post.cursor.1 == pre.cursor.1 + 1
        &&& post.cursor.0 == clamped_col(pre.col(), pre.line(pre.row() + 1))
    } else {
        &&& post.cursor.1 == pre.cursor.1
        &&& post.cursor.0 == pre.line(pre.row()).len()
    }
    &&& nav_frame(pre, post)
}

/// Arrow left: one cell left, wrapping to the end of the previous line
/// at column zero, except at the origin.
pub open spec fn left_step(pre: TextBuf, post: TextBuf) -> bool {
    &&& if pre.col() > 0 {
        &&& post.cursor.0 == pre.cursor.0 - 1
        &&& post.cursor.1 == pre.cursor.1
    } else if pre.row() > 0 {
        &&& post.cursor.1 == pre.cursor.1 - 1
        &&& post.cursor.0 == pre.line(pre.row() - 1).len()
    } else {
        post.cursor == pre.cursor
    }
    &&& nav_frame(pre, post)
}

/// Arrow right: one cell right, wrapping to the start of the next line
/// at the end of a line, except on the last row.
pub open spec fn right_step(pre: TextBuf, post: TextBuf) -> bool {
    &&& if pre.lines().len() == 0 {
        post.cursor == pre.cursor
    } else if pre.col() < pre.line(pre.row()).len() {
        &&& post.cursor.0 == pre.cursor.0 + 1
        &&& post.cursor.1 == pre.cursor.1
    } else if pre.row() + 1 < pre.lines().len() {
        &&& post.cursor.0 == 0
        &&& post.cursor.1 == pre.cursor.1 + 1
    } else {
        post.cursor == pre.cursor
    }
    &&& nav_frame(pre, post)
}

/// How far a page movement shifts the row: one less than the display
/// height, so one row of context stays on screen.
pub open spec fn page_shift(rows: u16) -> int {
    if rows >= 1 {
        rows - 1
    } else {
        0
    }
}

/// Page up: the row shifts up by the page stride, clamped at the top,
/// and the column snaps onto the destination line.
pub open spec fn page_up_step(pre: TextBuf, post: TextBuf) -> bool {
    let shift = page_shift(pre.dimensions.1);
    let newrow = if pre.row() >= shift {
        pre.row() - shift
    } else {
        0
    };
    &&& post.cursor.1 == newrow
    &&& if pre.lines().len() == 0 {
        post.cursor.0 == pre.cursor.0
    } else {
        post.cursor.0 == clamped_col(pre.col(), pre.line(newrow))
    }
    &&& nav_frame(pre, post)
}

/// Page down: the row shifts down by the page stride, clamped at the
/// last line, and the column snaps onto the destination line.
pub open spec fn page_down_step(pre: TextBuf, post: TextBuf) -> bool {
    &&& if pre.lines().len() == 0 {
        post.cursor == pre.cursor
    } else {
        let shift = page_shift(pre.dimensions.1);
        let newrow = if pre.row() + shift < pre.lines().len() {
            pre.row() + shift
        } else {
            pre.lines().len() - 1
        };
        &&& post.cursor.1 == newrow
        &&& post.cursor.0 == clamped_col(pre.col(), pre.line(newrow))
    }
    &&& nav_frame(pre, post)
}

/// Home: the column goes to zero.
pub open spec fn home_step(pre: TextBuf, post: TextBuf) -> bool {
    &&& post.cursor.0 == 0
    &&& post.cursor.1 == pre.cursor.1
    &&& nav_frame(pre, post)
}

/// End: the column goes to the end of the current line.
pub open spec fn end_step(pre: TextBuf, post: TextBuf) -> bool {
    &&& if pre.lines().len() == 0 {
        post.cursor.0 == pre.cursor.0
    } else {
        post.cursor.0 == pre.line(pre.row()).len()
    }
    &&& post.cursor.1 == pre.cursor.1
    &&& nav_frame(pre, post)
}

/// What every pure cursor movement leaves alone: the content, the
/// save-changed flag and the viewport; it always marks the view stale.
pub open spec fn nav_frame(pre: TextBuf, post: TextBuf) -> bool {
    &&& post.lines() == pre.lines()
    &&& post.save_changed == pre.save_changed
    &&& post.dirty
    &&& keys_frame(pre, post)
}

/// A control chord: save leaves the state alone but asks the host to
/// persist and forces a redraw; quit asks the host to terminate; any
/// other chord does nothing.
pub open spec fn chord_step(pre: TextBuf, c: char, post: TextBuf, eff: Effect) -> bool {
    if c == 's' {
        &&& post.lines() == pre.lines()
        &&& post.cursor == pre.cursor
        &&& post.save_changed == pre.save_changed
        &&& post.dirty
        &&& keys_frame(pre, post)
        &&& eff == Effect::SaveRequested
    } else if c == 'q' {
        &&& unchanged(pre, post)
        &&& eff == Effect::QuitRequested
    } else {
        &&& unchanged(pre, post)
        &&& eff == Effect::Nothing
    }
}

/// The full keystroke transition relation: what each key with each
/// modifier state does to the buffer, and what it asks of the host.
pub open spec fn key_step(
    pre: TextBuf,
    code: KeyCode,
    mods: Modifiers,
    post: TextBuf,
    eff: Effect,
) -> bool {
    match (code, mods) {
        (KeyCode::Char(c), Modifiers::Plain) => char_step(pre, c, post) && eff == Effect::Nothing,
        (KeyCode::Char(c), Modifiers::Control) => chord_step(pre, c, post, eff),
        (KeyCode::Char(_), Modifiers::Other) => unchanged(pre, post) && eff == Effect::Nothing,
        (KeyCode::Backspace, _) => backspace_step(pre, post) && eff == Effect::Nothing,
        (KeyCode::Delete, _) => delete_step(pre, post) && eff == Effect::Nothing,
        (KeyCode::Enter, _) => enter_step(pre, post) && eff == Effect::Nothing,
        (KeyCode::Tab, _) => tab_step(pre, post) && eff == Effect::Nothing,
        (KeyCode::Up, _) => up_step(pre, post) && eff == Effect::Nothing,
        (KeyCode::Down, _) => down_step(pre, post) && eff == Effect::Nothing,
        (KeyCode::Left, _) => left_step(pre, post) && eff == Effect::Nothing,
        (KeyCode::Right, _) => right_step(pre, post) && eff == Effect::Nothing,
        (KeyCode::PageUp, _) => page_up_step(pre, post) && eff == Effect::Nothing,
        (KeyCode::PageDown, _) => page_down_step(pre, post) && eff == Effect::Nothing,
        (KeyCode::Home, _) => home_step(pre, post) && eff == Effect::Nothing,
        (KeyCode::End, _) => end_step(pre, post) && eff == Effect::Nothing,
        (KeyCode::Esc, _) => unchanged(pre, post) && eff == Effect::Nothing,
    }
}

/// How far the view may scroll down: far enough that the last line is
/// the bottom of the window, and not at all for a short document.
pub open spec fn scroll_bound(pre: TextBuf) -> int {
    if pre.lines().len() > pre.dimensions.1 {
        pre.lines().len() - pre.dimensions.1
    } else {
        0
    }
}

/// The fields a scroll never touches, and the redraw it always forces.
pub open spec fn scroll_frame(pre: TextBuf, post: TextBuf) -> bool {
    &&& post.lines() == pre.lines()
    &&& post.save_changed == pre.save_changed
    &&& post.dirty
    &&& post.dimensions == pre.dimensions
    &&& post.viewport_h_offset == pre.viewport_h_offset
    &&& post.filename == pre.filename
}

/// Wheel down: the vertical offset moves one step towards the scroll
/// bound (and back inside it if it was beyond); a cursor left above the
/// window is snapped to its top edge, onto a valid cell.
pub open spec fn scroll_down_step(pre: TextBuf, post: TextBuf) -> bool {
    let bound = scroll_bound(pre);
    let v = if pre.viewport_v_offset < bound {
        pre.viewport_v_offset + 1
    } else if pre.viewport_v_offset > bound {
        bound
    } else {
        pre.viewport_v_offset as int
    };
    &&& post.viewport_v_offset == v
    &&& if pre.row() < v {
        let newrow = if v < pre.lines().len() - 1 {
            v
        } else {
            pre.lines().len() - 1
        };
        &&& post.cursor.1 == newrow
        &&& post.cursor.0 == clamped_col(pre.col(), pre.line(newrow))
    } else {
        post.cursor == pre.cursor
    }
    &&& scroll_frame(pre, post)
}

/// Wheel up: the vertical offset moves one step towards zero; a cursor
/// left below the window is snapped to its bottom edge, onto a valid
/// cell.
pub open spec fn scroll_up_step(pre: TextBuf, post: TextBuf) -> bool {
    let v = if pre.viewport_v_offset > 0 {
        pre.viewport_v_offset - 1
    } else {
        0
    };
    &&& post.viewport_v_offset == v
    &&& if pre.dimensions.1 >= 1 && pre.row() >= v + pre.dimensions.1 {
        let newrow = v + pre.dimensions.1 - 1;
        &&& post.cursor.1 == newrow
        &&& post.cursor.0 == clamped_col(pre.col(), pre.line(newrow))
    } else {
        post.cursor == pre.cursor
    }
    &&& scroll_frame(pre, post)
}

/// A click: screen coordinates plus the viewport offsets give a document
/// position, clamped to the nearest valid cell; on an empty document
/// only a redraw happens.
pub open spec fn click_step(pre: TextBuf, column: u16, mrow: u16, post: TextBuf) -> bool {
    &&& if pre.lines().len() == 0 {
        post.cursor == pre.cursor
    } else {
        let y0 = pre.viewport_v_offset + mrow;
        let y = if y0 < pre.lines().len() - 1 {
            y0
        } else {
            pre.lines().len() - 1
        };
        let x0 = pre.viewport_h_offset + column;
        let x = if x0 < pre.line(y).len() {
            x0
        } else {
            pre.line(y).len() as int
        };
        &&& post.cursor.0 == x
        &&& post.cursor.1 == y
    }
    &&& post.lines() == pre.lines()
    &&& post.save_changed == pre.save_changed
    &&& post.dirty
    &&& post.dimensions == pre.dimensions
    &&& post.viewport_v_offset == pre.viewport_v_offset
    &&& post.viewport_h_offset == pre.viewport_h_offset
    &&& post.filename == pre.filename
}

/// The full mouse transition relation.
pub open spec fn mouse_step(pre: TextBuf, m: MouseInput, post: TextBuf) -> bool {
    match m.kind {
        MouseKind::ScrollDown => scroll_down_step(pre, post),
        MouseKind::ScrollUp => scroll_up_step(pre, post),
        MouseKind::Press => click_step(pre, m.column, m.row, post),
        MouseKind::Other => unchanged(pre, post),
    }
}

/// A resize only records the new display dimensions.
pub open spec fn resize_step(pre: TextBuf, w: u16, h: u16, post: TextBuf) -> bool {
    &&& post.dimensions == (w, h)
    &&& post.lines() == pre.lines()
    &&& post.cursor == pre.cursor
    &&& post.viewport_v_offset == pre.viewport_v_offset
    &&& post.viewport_h_offset == pre.viewport_h_offset
    &&& post.filename == pre.filename
    &&& post.save_changed == pre.save_changed
    &&& post.dirty == pre.dirty
}

/// The full transition relation of the dispatcher, over the whole event
/// alphabet.
pub open spec fn event_step(pre: TextBuf, event: InputEvent, post: TextBuf, eff: Effect) -> bool {
    match event {
        InputEvent::KeyStroke(code, mods) => key_step(pre, code, mods, post, eff),
        InputEvent::Mouse(m) => mouse_step(pre, m, post) && eff == Effect::Nothing,
        InputEvent::Resize(w, h) => resize_step(pre, w, h, post) && eff == Effect::Nothing,
    }
}

/// Applies one abstract input event to the buffer and reports what the
/// host must do; the transition is total over the event alphabet and
/// preserves cursor validity.
pub fn process_event(event: InputEvent, textbuf: &mut TextBuf) -> (eff: Effect)
    requires
        old(textbuf).inv(),
    ensures
        event_step(*old(textbuf), event, *final(textbuf), eff),
        final(textbuf).inv(),
{
    match event {
        InputEvent::KeyStroke(key, modifiers) => process_key_code(
            KeyStroke(key, modifiers),
            textbuf,
        ),
        InputEvent::Mouse(mouse_event) => {
            process_mouse_code(mouse_event, textbuf);
            Effect::Nothing
        }
        InputEvent::Resize(width, height) => {
            textbuf.dimensions = (width, height);
            Effect::Nothing
        }
    }
}

/// Applies one mouse action to the buffer.
pub fn process_mouse_code(event: MouseInput, textbuf: &mut TextBuf)
    requires
        old(textbuf).inv(),
    ensures
        mouse_step(*old(textbuf), event, *final(textbuf)),
        final(textbuf).inv(),
{
    match event.kind {
        MouseKind::ScrollDown => mouse_scroll_down(textbuf),
        MouseKind::ScrollUp => mouse_scroll_up(textbuf),
        MouseKind::Press => mouse_click(textbuf, event.column, event.row),
        MouseKind::Other => {}
    }
}

fn mouse_scroll_down(textbuf: &mut TextBuf)
    requires
        old(textbuf).inv(),
    ensures
        scroll_down_step(*old(textbuf), *final(textbuf)),
        final(textbuf).inv(),
{
    let count = textbuf.line_count();
    let rows = textbuf.dimensions.1 as usize;
    let bound = if count > rows {
        count - rows
    } else {
        0
    };
    let v0 = textbuf.viewport_v_offset;
    let v = if v0 < bound {
        v0 + 1
    } else if v0 > bound {
        bound
    } else {
        v0
    };
    textbuf.viewport_v_offset = v;
    if textbuf.cursor.1 < v {
        let newrow = if v < count {
            v
        } else {
            count - 1
        };
        textbuf.cursor.1 = newrow;
        let l = textbuf.line_length(newrow);
        if textbuf.cursor.0 > l {
            textbuf.cursor.0 = l;
        }
    }
    textbuf.dirty = true;
}

fn mouse_scroll_up(textbuf: &mut TextBuf)
    requires
        old(textbuf).inv(),
    ensures
        scroll_up_step(*old(textbuf), *final(textbuf)),
        final(textbuf).inv(),
{
    let v0 = textbuf.viewport_v_offset;
    let v = if v0 > 0 {
        v0 - 1
    } else {
        0
    };
    textbuf.viewport_v_offset = v;
    let rows = textbuf.dimensions.1 as usize;
    if rows >= 1 && textbuf.cursor.1 >= v && textbuf.cursor.1 - v >= rows {
        let newrow = v + rows - 1;
        textbuf.cursor.1 = newrow;
        let l = textbuf.line_length(newrow);
        if textbuf.cursor.0 > l {
            textbuf.cursor.0 = l;
        }
    }
    textbuf.dirty = true;
}

/// Addition that stops at the largest representable value instead of
/// wrapping; the callers clamp the result further, so saturation never
/// changes where a click lands.
fn saturating_add(a: usize, b: usize) -> (r: usize)
    ensures
        r == if a + b <= usize::MAX {
            a + b
        } else {
            usize::MAX as int
        },
{
    if a <= usize::MAX - b {
        a + b
    } else {
        usize::MAX
    }
}

fn mouse_click(textbuf: &mut TextBuf, column: u16, mrow: u16)
    requires
        old(textbuf).inv(),
    ensures
        click_step(*old(textbuf), column, mrow, *final(textbuf)),
        final(textbuf).inv(),
{
    let count = textbuf.line_count();
    if count > 0 {
        let y0 = saturating_add(textbuf.viewport_v_offset, mrow as usize);
        let y = if y0 < count - 1 {
            y0
        } else {
            count - 1
        };
        let llen = textbuf.line_length(y);
        let x0 = saturating_add(textbuf.viewport_h_offset, column as usize);
        let x = if x0 < llen {
            x0
        } else {
            llen
        };
        textbuf.cursor = (x, y);
    }
    textbuf.dirty = true;
}

/// Applies one keystroke to the buffer and reports what the host must do.
pub fn process_key_code(key: KeyStroke, textbuf: &mut TextBuf) -> (eff: Effect)
    requires
        old(textbuf).inv(),
    ensures
        key_step(*old(textbuf), key.0, key.1, *final(textbuf), eff),
        final(textbuf).inv(),
{
    match key {
        KeyStroke(KeyCode::Char(c), Modifiers::Plain) => {
            key_char(textbuf, c);
            Effect::Nothing
        }
        KeyStroke(KeyCode::Char(c), Modifiers::Control) => {
            if c == 's' {
                textbuf.dirty = true;
                Effect::SaveRequested
            } else if c == 'q' {
                Effect::QuitRequested
            } else {
                Effect::Nothing
            }
        }
        KeyStroke(KeyCode::Char(_), Modifiers::Other) => Effect::Nothing,
        KeyStroke(KeyCode::Backspace, _) => {
            key_backspace(textbuf);
            Effect::Nothing
        }
        KeyStroke(KeyCode::Delete, _) => {
            key_delete(textbuf);
            Effect::Nothing
        }
        KeyStroke(KeyCode::Enter, _) => {
            key_enter(textbuf);
            Effect::Nothing
        }
        KeyStroke(KeyCode::Tab, _) => {
            key_tab(textbuf);
            Effect::Nothing
        }
        KeyStroke(KeyCode::Up, _) => {
            key_up(textbuf);
            Effect::Nothing
        }
        KeyStroke(KeyCode::Down, _) => {
            key_down(textbuf);
            Effect::Nothing
        }
        KeyStroke(KeyCode::Left, _) => {
            key_left(textbuf);
            Effect::Nothing
        }
        KeyStroke(KeyCode::Right, _) => {
            key_right(textbuf);
            Effect::Nothing
        }
        KeyStroke(KeyCode::PageUp, _) => {
            key_page_up(textbuf);
            Effect::Nothing
        }
        KeyStroke(KeyCode::PageDown, _) => {
            key_page_down(textbuf);
            Effect::Nothing
        }
        KeyStroke(KeyCode::Home, _) => {
            key_home(textbuf);
            Effect::Nothing
        }
        KeyStroke(KeyCode::End, _) => {
            key_end(textbuf);
            Effect::Nothing
        }
        KeyStroke(KeyCode::Esc, _) => Effect::Nothing,
    }
}

/// Grows an empty document by one empty line, so the cursor's row exists.
fn ensure_cursor_row(textbuf: &mut TextBuf)
    requires
        old(textbuf).inv(),
    ensures
        final(textbuf).lines() == base_lines(*old(textbuf)),
        final(textbuf).cursor == old(textbuf).cursor,
        final(textbuf).row() < final(textbuf).lines().len(),
        final(textbuf).col() <= final(textbuf).line(final(textbuf).row()).len(),
        final(textbuf).save_changed == old(textbuf).save_changed,
        keys_frame(*old(textbuf), *final(textbuf)),
        final(textbuf).inv(),
{
    if textbuf.line_count() == 0 {
        textbuf.append_line(Vec::new());
        proof {
            assert(textbuf.lines() =~= base_lines(*old(textbuf)));
        }
    }
}

fn key_char(textbuf: &mut TextBuf, c: char)
    requires
        old(textbuf).inv(),
    ensures
        char_step(*old(textbuf), c, *final(textbuf)),
        final(textbuf).inv(),
{
    ensure_cursor_row(textbuf);
    let row = textbuf.cursor.1;
    let col = textbuf.cursor.0;
    textbuf.insert_char(row, col, c);
    let n = textbuf.line_length(row);
    assert(col < n);
    textbuf.cursor.0 = col + 1;
    textbuf.save_changed = true;
    textbuf.dirty = true;
}

fn key_backspace(textbuf: &mut TextBuf)
    requires
        old(textbuf).inv(),
    ensures
        backspace_step(*old(textbuf), *final(textbuf)),
        final(textbuf).inv(),
{
    let row = textbuf.cursor.1;
    let col = textbuf.cursor.0;
    if col > 0 {
        textbuf.delete_char(row, col - 1);
        textbuf.cursor.0 = col - 1;
    } else if row > 0 {
        let prev_len = textbuf.line_length(row - 1);
        textbuf.join_line(row);
        textbuf.cursor.1 = row - 1;
        textbuf.cursor.0 = prev_len;
    }
    textbuf.save_changed = true;
    textbuf.dirty = true;
}

fn key_delete(textbuf: &mut TextBuf)
    requires
        old(textbuf).inv(),
    ensures
        delete_step(*old(textbuf), *final(textbuf)),
        final(textbuf).inv(),
{
    let count = textbuf.line_count();
    if count > 0 {
        let row = textbuf.cursor.1;
        let col = textbuf.cursor.0;
        let llen = textbuf.line_length(row);
        if col < llen {
            textbuf.delete_char(row, col);
        } else if row + 1 < count {
            textbuf.join_line(row + 1);
        }
    }
    textbuf.save_changed = true;
    textbuf.dirty = true;
}

fn key_enter(textbuf: &mut TextBuf)
    requires
        old(textbuf).inv(),
    ensures
        enter_step(*old(textbuf), *final(textbuf)),
        final(textbuf).inv(),
{
    ensure_cursor_row(textbuf);
    let row = textbuf.cursor.1;
    let col = textbuf.cursor.0;
    textbuf.split_line(row, col);
    let count = textbuf.line_count();
    assert(row + 1 < count);
    textbuf.cursor.1 = row + 1;
    textbuf.cursor.0 = 0;
    textbuf.save_changed = true;
    textbuf.dirty = true;
}

fn key_tab(textbuf: &mut TextBuf)
    requires
        old(textbuf).inv(),
    ensures
        tab_step(*old(textbuf), *final(textbuf)),
        final(textbuf).inv(),
{
    ensure_cursor_row(textbuf);
    let row = textbuf.cursor.1;
    let col = textbuf.cursor.0;
    textbuf.insert_char(row, col, ' ');
    let n1 = textbuf.line_length(row);
    assert(col < n1);
    textbuf.insert_char(row, col + 1, ' ');
    let n2 = textbuf.line_length(row);
    assert(col + 1 < n2);
    textbuf.insert_char(row, col + 2, ' ');
    let n3 = textbuf.line_length(row);
    assert(col + 2 < n3);
    textbuf.insert_char(row, col + 3, ' ');
    let n4 = textbuf.line_length(row);
    assert(col + 3 < n4);
    textbuf.cursor.0 = col + 4;
    textbuf.save_changed = true;
    textbuf.dirty = true;
    proof {
        let base = base_lines(*old(textbuf));
        let line = base[old(textbuf).row()];
        let c = old(textbuf).col();
        assert(line.insert(c, ' ').insert(c + 1, ' ').insert(c + 2, ' ').insert(c + 3, ' ')
            =~= line.take(c) + seq![' ', ' ', ' ', ' '] + line.skip(c));
        assert(textbuf.lines() =~= base.update(
            old(textbuf).row(),
            line.take(c) + seq![' ', ' ', ' ', ' '] + line.skip(c),
        ));
    }
}

fn key_up(textbuf: &mut TextBuf)
    requires
        old(textbuf).inv(),
    ensures
        up_step(*old(textbuf), *final(textbuf)),
        final(textbuf).inv(),
{
    let row = textbuf.cursor.1;
    if row > 0 {
        textbuf.cursor.1 = row - 1;
        let l = textbuf.line_length(row - 1);
        if textbuf.cursor.0 > l {
            textbuf.cursor.0 = l;
        }
    } else {
        textbuf.cursor.0 = 0;
    }
    textbuf.dirty = true;
}

fn key_down(textbuf: &mut TextBuf)
    requires
        old(textbuf).inv(),
    ensures
        down_step(*old(textbuf), *final(textbuf)),
        final(textbuf).inv(),
{
    let count = textbuf.line_count();
    if count > 0 {
        let row = textbuf.cursor.1;
        if row + 1 < count {
            textbuf.cursor.1 = row + 1;
            let l = textbuf.line_length(row + 1);
            if textbuf.cursor.0 > l {
                textbuf.cursor.0 = l;
            }
        } else {
            let l = textbuf.line_length(row);
            textbuf.cursor.0 = l;
        }
    }
    textbuf.dirty = true;
}

fn key_left(textbuf: &mut TextBuf)
    requires
        old(textbuf).inv(),
    ensures
        left_step(*old(textbuf), *final(textbuf)),
        final(textbuf).inv(),
{
    let col = textbuf.cursor.0;
    let row = textbuf.cursor.1;
    if col > 0 {
        textbuf.cursor.0 = col - 1;
    } else if row > 0 {
        textbuf.cursor.1 = row - 1;
        let l = textbuf.line_length(row - 1);
        textbuf.cursor.0 = l;
    }
    textbuf.dirty = true;
}

fn key_right(textbuf: &mut TextBuf)
    requires
        old(textbuf).inv(),
    ensures
        right_step(*old(textbuf), *final(textbuf)),
        final(textbuf).inv(),
{
    let count = textbuf.line_count();
    if count > 0 {
        let col = textbuf.cursor.0;
        let row = textbuf.cursor.1;
        let l = textbuf.line_length(row);
        if col < l {
            textbuf.cursor.0 = col + 1;
        } else if row + 1 < count {
            textbuf.cursor.1 = row + 1;
            textbuf.cursor.0 = 0;
        }
    }
    textbuf.dirty = true;
}

fn key_page_up(textbuf: &mut TextBuf)
    requires
        old(textbuf).inv(),
    ensures
        page_up_step(*old(textbuf), *final(textbuf)),
        final(textbuf).inv(),
{
    let rows = textbuf.dimensions.1 as usize;
    let shift = if rows >= 1 {
        rows - 1
    } else {
        0
    };
    let row = textbuf.cursor.1;
    let newrow = if row >= shift {
        row - shift
    } else {
        0
    };
    textbuf.cursor.1 = newrow;
    let count = textbuf.line_count();
    if count > 0 {
        let l = textbuf.line_length(newrow);
        if textbuf.cursor.0 > l {
            textbuf.cursor.0 = l;
        }
    }
    textbuf.dirty = true;
}

fn key_page_down(textbuf: &mut TextBuf)
    requires
        old(textbuf).inv(),
    ensures
        page_down_step(*old(textbuf), *final(textbuf)),
        final(textbuf).inv(),
{
    let count = textbuf.line_count();
    if count > 0 {
        let rows = textbuf.dimensions.1 as usize;
        let shift = if rows >= 1 {
            rows - 1
        } else {
            0
        };
        let row = textbuf.cursor.1;
        let room = count - 1 - row;
        let newrow = if shift <= room {
            row + shift
        } else {
            count - 1
        };
        textbuf.cursor.1 = newrow;
        let l = textbuf.line_length(newrow);
        if textbuf.cursor.0 > l {
            textbuf.cursor.0 = l;
        }
    }
    textbuf.dirty = true;
}

fn key_home(textbuf: &mut TextBuf)
    requires
        old(textbuf).inv(),
    ensures
        home_step(*old(textbuf), *final(textbuf)),
        final(textbuf).inv(),
{
    textbuf.cursor.0 = 0;
    textbuf.dirty = true;
}

fn key_end(textbuf: &mut TextBuf)
    requires
        old(textbuf).inv(),
    ensures
        end_step(*old(textbuf), *final(textbuf)),
        final(textbuf).inv(),
{
    let count = textbuf.line_count();
    if count > 0 {
        let row = textbuf.cursor.1;
        let l = textbuf.line_length(row);
        textbuf.cursor.0 = l;
    }
    textbuf.dirty = true;
}

} // verus!
