//! The document model: an ordered sequence of lines, a cursor, a viewport
//! and the session flags, together with the line-level mutation primitives.

use vstd::prelude::*;

verus! {

/// The editable text buffer and its session state.
///
/// `row_buffer` holds the document lines (no trailing newline stored);
/// `cursor` is `(column, row)`, zero-based, the column may equal the line
/// length (the append position); `dimensions` is the visible
/// `(columns, rows)` of the display; the two offsets give the top-left
/// document coordinate currently visible.
#[derive(Debug)]
pub struct TextBuf {
    pub row_buffer: Vec<Vec<char>>,
    pub cursor: (usize, usize),
    pub dimensions: (u16, u16),
    pub viewport_v_offset: usize,
    pub viewport_h_offset: usize,
    pub filename: Option<String>,
    pub save_changed: bool,
    pub dirty: bool,
}

/// The abstract content of a sequence of line buffers.
pub open spec fn row_views(rows: Seq<Vec<char>>) -> Seq<Seq<char>> {
    rows.map_values(|r: Vec<char>| r@)
}

impl TextBuf {
    /// The document content as a sequence of character sequences.
    pub open spec fn lines(self) -> Seq<Seq<char>> {
        row_views(self.row_buffer@)
    }

    /// One line of the document.
    pub open spec fn line(self, i: int) -> Seq<char> {
        self.lines()[i]
    }

    /// Cursor column, as a mathematical integer.
    pub open spec fn col(self) -> int {
        self.cursor.0 as int
    }

    /// Cursor row, as a mathematical integer.
    pub open spec fn row(self) -> int {
        self.cursor.1 as int
    }

    /// Cursor validity: on an empty document the cursor rests at the
    /// origin; otherwise the row indexes an existing line and the column
    /// is at most that line's length.
    pub open spec fn inv(self) -> bool {
        if self.lines().len() == 0 {
            self.cursor.0 == 0 && self.cursor.1 == 0
        } else {
            &&& self.row() < self.lines().len()
            &&& self.col() <= self.line(self.row()).len()
        }
    }

    /// Everything but the document content is equal in `a` and `b`.
    pub open spec fn same_but_content(a: TextBuf, b: TextBuf) -> bool {
        &&& a.cursor == b.cursor
        &&& a.dimensions == b.dimensions
        &&& a.viewport_v_offset == b.viewport_v_offset
        &&& a.viewport_h_offset == b.viewport_h_offset
        &&& a.filename == b.filename
        &&& a.save_changed == b.save_changed
        &&& a.dirty == b.dirty
    }

    /// An empty, unnamed document with the given display dimensions:
    /// no lines, cursor at the origin, offsets zero, and the dirty flag
    /// set so that the first frame is drawn.
    pub fn new(columns: u16, rows: u16) -> (buf: TextBuf)
        ensures
            buf.lines() =~= Seq::<Seq<char>>::empty(),
            buf.cursor == (0usize, 0usize),
            buf.dimensions == (columns, rows),
            buf.viewport_v_offset == 0,
            buf.viewport_h_offset == 0,
            buf.filename is None,
            !buf.save_changed,
            buf.dirty,
            buf.inv(),
    {
        TextBuf {
            row_buffer: Vec::new(),
            cursor: (0, 0),
            dimensions: (columns, rows),
            viewport_v_offset: 0,
            viewport_h_offset: 0,
            filename: None,
            save_changed: false,
            dirty: true,
        }
    }

    /// Number of lines in the document.
    pub fn line_count(&self) -> (n: usize)
        ensures
            n == self.lines().len(),
    {
        self.row_buffer.len()
    }

    /// Length of one line.
    pub fn line_length(&self, row: usize) -> (n: usize)
        requires
            row < self.lines().len(),
        ensures
            n == self.line(row as int).len(),
    {
        self.row_buffer[row].len()
    }

    /// Inserts `ch` into `lines[row]` before position `col`; at
    /// `col == line_length(row)` this appends.
    pub fn insert_char(&mut self, row: usize, col: usize, ch: char)
        requires
            row < old(self).lines().len(),
            col <= old(self).line(row as int).len(),
        ensures
            final(self).lines() =~= old(self).lines().update(
                row as int,
                old(self).line(row as int).insert(col as int, ch),
            ),
            Self::same_but_content(*final(self), *old(self)),
    {
        let mut line = self.row_buffer.remove(row);
        line.insert(col, ch);
        self.row_buffer.insert(row, line);
        proof {
            assert(self.row_buffer@ =~= old(self).row_buffer@.update(row as int, self.row_buffer@[row as int]));
        }
    }

    /// Removes the character at position `col` of `lines[row]`.
    pub fn delete_char(&mut self, row: usize, col: usize)
        requires
            row < old(self).lines().len(),
            col < old(self).line(row as int).len(),
        ensures
            final(self).lines() =~= old(self).lines().update(
                row as int,
                old(self).line(row as int).remove(col as int),
            ),
            Self::same_but_content(*final(self), *old(self)),
    {
        let mut line = self.row_buffer.remove(row);
        line.remove(col);
        self.row_buffer.insert(row, line);
        proof {
            assert(self.row_buffer@ =~= old(self).row_buffer@.update(row as int, self.row_buffer@[row as int]));
        }
    }

    /// Moves the suffix `[col, end)` of `lines[row]` into a newly
    /// inserted line at `row + 1`; the prefix remains at `row`.
    pub fn split_line(&mut self, row: usize, col: usize)
        requires
            row < old(self).lines().len(),
            col <= old(self).line(row as int).len(),
        ensures
            final(self).lines() =~= old(self).lines()
                .update(row as int, old(self).line(row as int).take(col as int))
                .insert(row as int + 1, old(self).line(row as int).skip(col as int)),
            Self::same_but_content(*final(self), *old(self)),
    {
        let mut line = self.row_buffer.remove(row);
        let suffix = line.split_off(col);
        self.row_buffer.insert(row, line);
        let n = self.row_buffer.len();
        assert(row < n);
        self.row_buffer.insert(row + 1, suffix);
        proof {
            assert(old(self).line(row as int).take(col as int) == old(self).line(row as int).subrange(0, col as int));
            assert(old(self).line(row as int).skip(col as int) =~= old(self).line(row as int).subrange(col as int, old(self).line(row as int).len() as int));
            assert(self.row_buffer@ =~= old(self).row_buffer@
                .update(row as int, self.row_buffer@[row as int])
                .insert(row as int + 1, self.row_buffer@[row as int + 1]));
        }
    }

    /// Merges `lines[row]` into `lines[row - 1]` and removes `lines[row]`;
    /// rejected (a no-op) when `row == 0`.
    pub fn join_line(&mut self, row: usize)
        requires
            row < old(self).lines().len(),
        ensures
            row == 0 ==> *final(self) == *old(self),
            row > 0 ==> final(self).lines() =~= old(self).lines()
                .update(row as int - 1, old(self).line(row as int - 1) + old(self).line(row as int))
                .remove(row as int),
            Self::same_but_content(*final(self), *old(self)),
    {
        if row == 0 {
            return;
        }
        let mut moved = self.row_buffer.remove(row);
        let mut prev = self.row_buffer.remove(row - 1);
        prev.append(&mut moved);
        self.row_buffer.insert(row - 1, prev);
        proof {
            assert(self.row_buffer@ =~= old(self).row_buffer@
                .update(row as int - 1, self.row_buffer@[row as int - 1])
                .remove(row as int));
        }
    }

    /// Decides at run time whether the cursor is valid, so an unverified
    /// host can test the invariant before calling into the core.
    pub fn check_inv(&self) -> (b: bool)
        ensures
            b == self.inv(),
    {
        let count = self.line_count();
        if count == 0 {
            self.cursor.0 == 0 && self.cursor.1 == 0
        } else if self.cursor.1 < count {
            let l = self.line_length(self.cursor.1);
            self.cursor.0 <= l
        } else {
            false
        }
    }

    /// Appends one line at the end of the document and marks the view
    /// stale, as the background loader does after each line it reads.
    pub fn append_line(&mut self, line: Vec<char>)
        requires
            old(self).inv(),
        ensures
            final(self).lines() =~= old(self).lines().push(line@),
            final(self).dirty,
            final(self).cursor == old(self).cursor,
            final(self).dimensions == old(self).dimensions,
            final(self).viewport_v_offset == old(self).viewport_v_offset,
            final(self).viewport_h_offset == old(self).viewport_h_offset,
            final(self).filename == old(self).filename,
            final(self).save_changed == old(self).save_changed,
            final(self).inv(),
    {
        self.row_buffer.push(line);
        self.dirty = true;
    }
}

} // verus!
