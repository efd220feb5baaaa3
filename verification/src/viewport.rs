//! The viewport: keeping the visible window around the cursor, and the
//! read-only slice of the document that a renderer draws.

use vstd::prelude::*;

use crate::textbuf::TextBuf;

verus! {

/// The minimal adjustment that brings `pos` back into the window
/// `[offset, offset + extent)`: move the window start down to `pos` when
/// the cursor is above it, up to `pos - extent + 1` when the cursor is
/// below it, and not at all otherwise.
pub open spec fn reconcile_offset(offset: int, pos: int, extent: int) -> int {
    if pos < offset {
        pos
    } else if pos >= offset + extent {
        pos - extent + 1
    } else {
        offset
    }
}

/// Law: a window of at least one cell contains the position after
/// reconciliation, and a window start that was non-negative stays so.
pub proof fn lemma_reconcile_in_window(offset: int, pos: int, extent: int)
    requires
        0 <= pos,
        1 <= extent,
    ensures
        reconcile_offset(offset, pos, extent) <= pos
            < reconcile_offset(offset, pos, extent) + extent,
        0 <= offset ==> 0 <= reconcile_offset(offset, pos, extent),
{
}

/// Law: reconciling twice with no intervening change of position or
/// extent gives the same window start as reconciling once.
pub proof fn lemma_reconcile_idempotent(offset: int, pos: int, extent: int)
    requires
        1 <= extent,
    ensures
        reconcile_offset(reconcile_offset(offset, pos, extent), pos, extent)
            == reconcile_offset(offset, pos, extent),
{
}

/// Restores the viewport invariant before a render: each offset moves the
/// minimum amount needed to bring the cursor back inside the visible
/// window, and nothing else changes.
pub fn viewport_bounding(textbuf: &mut TextBuf)
    requires
        old(textbuf).inv(),
        old(textbuf).dimensions.0 == 0 ==> old(textbuf).cursor.0 < usize::MAX,
    ensures
        final(textbuf).viewport_v_offset == reconcile_offset(
            old(textbuf).viewport_v_offset as int,
            old(textbuf).row(),
            old(textbuf).dimensions.1 as int,
        ),
        final(textbuf).viewport_h_offset == reconcile_offset(
            old(textbuf).viewport_h_offset as int,
            old(textbuf).col(),
            old(textbuf).dimensions.0 as int,
        ),
        final(textbuf).lines() == old(textbuf).lines(),
        final(textbuf).cursor == old(textbuf).cursor,
        final(textbuf).dimensions == old(textbuf).dimensions,
        final(textbuf).filename == old(textbuf).filename,
        final(textbuf).save_changed == old(textbuf).save_changed,
        final(textbuf).dirty == old(textbuf).dirty,
        old(textbuf).dimensions.1 >= 1 ==> final(textbuf).viewport_v_offset
            <= old(textbuf).row()
            < final(textbuf).viewport_v_offset + old(textbuf).dimensions.1,
        old(textbuf).dimensions.0 >= 1 ==> final(textbuf).viewport_h_offset
            <= old(textbuf).col()
            < final(textbuf).viewport_h_offset + old(textbuf).dimensions.0,
        final(textbuf).inv(),
{
    // The line count bounds the cursor row, so `cursor.1 - rows + 1`
    // below cannot overflow even on a display of zero rows.
    let count = textbuf.line_count();
    let rows = textbuf.dimensions.1 as usize;
    if textbuf.cursor.1 < textbuf.viewport_v_offset {
        textbuf.viewport_v_offset = textbuf.cursor.1;
    } else if textbuf.cursor.1 - textbuf.viewport_v_offset >= rows {
        textbuf.viewport_v_offset = textbuf.cursor.1 - rows + 1;
    }

    let columns = textbuf.dimensions.0 as usize;
    if textbuf.cursor.0 < textbuf.viewport_h_offset {
        textbuf.viewport_h_offset = textbuf.cursor.0;
    } else if textbuf.cursor.0 - textbuf.viewport_h_offset >= columns {
        textbuf.viewport_h_offset = textbuf.cursor.0 - columns + 1;
    }
}

/// First visible document row and the row one past the last visible one:
/// the window starts at the vertical offset and ends at the display
/// height or the end of the document, whichever comes first.
pub fn visible_row_range(textbuf: &TextBuf) -> (r: (usize, usize))
    ensures
        r.0 == textbuf.viewport_v_offset,
        r.1 == if textbuf.lines().len()
            < textbuf.viewport_v_offset + textbuf.dimensions.1 {
            textbuf.lines().len() as int
        } else {
            textbuf.viewport_v_offset + textbuf.dimensions.1
        },
{
    let count = textbuf.line_count();
    let vstart = textbuf.viewport_v_offset;
    let rows = textbuf.dimensions.1 as usize;
    let vend = if count <= vstart {
        count
    } else if count - vstart <= rows {
        count
    } else {
        vstart + rows
    };
    (vstart, vend)
}

/// The visible slice of one line: the characters from the horizontal
/// offset up to the display width plus one, or the end of the line.
pub fn visible_line(textbuf: &TextBuf, row: usize) -> (r: Vec<char>)
    requires
        row < textbuf.lines().len(),
    ensures
        r@ == visible_slice(
            textbuf.line(row as int),
            textbuf.viewport_h_offset as int,
            textbuf.dimensions.0 as int,
        ),
{
    let llen = textbuf.line_length(row);
    let hstart = textbuf.viewport_h_offset;
    let width = textbuf.dimensions.0 as usize + 1;
    if llen <= hstart {
        let out: Vec<char> = Vec::new();
        return out;
    }
    let hend = if llen - hstart <= width {
        llen
    } else {
        hstart + width
    };
    let mut out: Vec<char> = Vec::new();
    let mut i = hstart;
    while i < hend
        invariant
            hstart <= i <= hend,
            hend <= llen,
            llen == textbuf.line(row as int).len(),
            row < textbuf.lines().len(),
            out@ == textbuf.line(row as int).subrange(hstart as int, i as int),
        decreases hend - i,
    {
        let line_ref = &textbuf.row_buffer[row];
        let c = line_ref[i];
        assert(c == textbuf.line(row as int)[i as int]);
        out.push(c);
        i = i + 1;
        proof {
            assert(out@ =~= textbuf.line(row as int).subrange(hstart as int, i as int));
        }
    }
    proof {
        assert(out@ =~= visible_slice(
            textbuf.line(row as int),
            textbuf.viewport_h_offset as int,
            textbuf.dimensions.0 as int,
        ));
    }
    out
}

/// The part of `line` between `h_offset` and the end of a display
/// `columns` cells wide (with one extra cell, as the renderer draws it),
/// clipped to the line; empty when the line ends before the offset.
pub open spec fn visible_slice(line: Seq<char>, h_offset: int, columns: int) -> Seq<char> {
    if line.len() <= h_offset {
        Seq::empty()
    } else if line.len() <= h_offset + columns + 1 {
        line.subrange(h_offset, line.len() as int)
    } else {
        line.subrange(h_offset, h_offset + columns + 1)
    }
}

/// Where the cursor falls on the screen, relative to the top-left of the
/// viewport; meaningful once the viewport has been reconciled.
pub fn cursor_screen_pos(textbuf: &TextBuf) -> (r: (usize, usize))
    requires
        textbuf.viewport_h_offset <= textbuf.cursor.0,
        textbuf.viewport_v_offset <= textbuf.cursor.1,
    ensures
        r.0 == textbuf.col() - textbuf.viewport_h_offset,
        r.1 == textbuf.row() - textbuf.viewport_v_offset,
{
    (
        textbuf.cursor.0 - textbuf.viewport_h_offset,
        textbuf.cursor.1 - textbuf.viewport_v_offset,
    )
}

/// The character drawn on rows past the end of the document: a tilde in
/// the leftmost column, a blank once the view is scrolled sideways.
pub fn filler_char(textbuf: &TextBuf) -> (c: char)
    ensures
        c == (if textbuf.viewport_h_offset == 0 { '~' } else { ' ' }),
{
    if textbuf.viewport_h_offset == 0 {
        '~'
    } else {
        ' '
    }
}

} // verus!
