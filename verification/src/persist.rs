//! The pure half of persistence: turning a document into the character
//! stream that is written to a file, and turning a character stream that
//! was read from a file back into a document. The host performs the
//! actual reads and writes.

use vstd::prelude::*;

use crate::EditorError;
use crate::textbuf::{TextBuf, row_views};

verus! {

/// The text with every horizontal tab replaced by `TABLENGTH` spaces.
pub open spec fn expand_tabs(s: Seq<char>) -> Seq<char>
    decreases s.len(),
{
    if s.len() == 0 {
        Seq::empty()
    } else {
        (if s[0] == '\t' {
            seq![' ', ' ', ' ', ' ']
        } else {
            seq![s[0]]
        }) + expand_tabs(s.skip(1))
    }
}

/// Position of the first line feed in `s`, or `s.len()` if there is none.
pub open spec fn first_newline(s: Seq<char>) -> nat
    decreases s.len(),
{
    if s.len() == 0 {
        0
    } else if s[0] == '\n' {
        0
    } else {
        (1 + first_newline(s.skip(1))) as nat
    }
}

/// A line with a terminating carriage return removed, as happens to the
/// `"\r"` of a `"\r\n"` line ending.
pub open spec fn strip_cr(line: Seq<char>) -> Seq<char> {
    if line.len() > 0 && line.last() == '\r' {
        line.drop_last()
    } else {
        line
    }
}

/// The text split into lines at each line feed, a carriage return
/// directly before a line feed removed, and no empty final line for a
/// text that ends with a line feed.
pub open spec fn split_lines(text: Seq<char>) -> Seq<Seq<char>>
    decreases text.len(),
{
    if text.len() == 0 {
        Seq::empty()
    } else {
        let i = first_newline(text) as int;
        if i >= text.len() {
            seq![text]
        } else {
            seq![strip_cr(text.take(i))] + split_lines(text.skip(i + 1))
        }
    }
}

/// The character stream a saved document consists of: every line
/// followed by a line feed.
pub open spec fn serialized(lines: Seq<Seq<char>>) -> Seq<char>
    decreases lines.len(),
{
    if lines.len() == 0 {
        Seq::empty()
    } else {
        lines[0] + seq!['\n'] + serialized(lines.skip(1))
    }
}

proof fn lemma_first_newline_at(s: Seq<char>, k: int)
    requires
        0 <= k <= s.len(),
        forall|j: int| 0 <= j < k ==> s[j] != '\n',
        k < s.len() ==> s[k] == '\n',
    ensures
        first_newline(s) == k,
    decreases k,
{
    if k == 0 {
    } else {
        assert(s[0] != '\n');
        let t = s.skip(1);
        assert forall|j: int| 0 <= j < k - 1 implies t[j] != '\n' by {
            assert(t[j] == s[j + 1]);
        }
        if k - 1 < t.len() {
            assert(t[k - 1] == s[k]);
        }
        lemma_first_newline_at(t, k - 1);
    }
}

/// Splitting a stream that starts with a line-feed-free line and its
/// terminator peels that line off the front.
proof fn lemma_split_lines_head(line: Seq<char>, rest: Seq<char>)
    requires
        forall|j: int| 0 <= j < line.len() ==> line[j] != '\n',
    ensures
        split_lines(line + seq!['\n'] + rest) == seq![strip_cr(line)] + split_lines(rest),
{
    let t = line + seq!['\n'] + rest;
    assert forall|j: int| 0 <= j < line.len() implies t[j] != '\n' by {
        assert(t[j] == line[j]);
    }
    assert(t[line.len() as int] == '\n');
    lemma_first_newline_at(t, line.len() as int);
    assert(t.take(line.len() as int) =~= line);
    assert(t.skip(line.len() as int + 1) =~= rest);
}

/// A non-empty stream without a line feed is one single line.
proof fn lemma_split_lines_single(s: Seq<char>)
    requires
        s.len() > 0,
        forall|j: int| 0 <= j < s.len() ==> s[j] != '\n',
    ensures
        split_lines(s) == seq![s],
{
    lemma_first_newline_at(s, s.len() as int);
}

/// Tab expansion distributes over concatenation.
proof fn lemma_expand_tabs_concat(a: Seq<char>, b: Seq<char>)
    ensures
        expand_tabs(a + b) == expand_tabs(a) + expand_tabs(b),
    decreases a.len(),
{
    if a.len() == 0 {
        assert(a + b =~= b);
        assert(expand_tabs(a) + expand_tabs(b) =~= expand_tabs(b));
    } else {
        lemma_expand_tabs_concat(a.skip(1), b);
        assert((a + b).skip(1) =~= a.skip(1) + b);
        assert((a + b)[0] == a[0]);
        assert(expand_tabs(a + b) =~= expand_tabs(a) + expand_tabs(b));
    }
}

/// Tab expansion introduces no line feed.
proof fn lemma_expand_tabs_no_newline(s: Seq<char>)
    requires
        forall|j: int| 0 <= j < s.len() ==> s[j] != '\n',
    ensures
        forall|j: int| 0 <= j < expand_tabs(s).len() ==> expand_tabs(s)[j] != '\n',
    decreases s.len(),
{
    if s.len() == 0 {
    } else {
        let head = if s[0] == '\t' {
            seq![' ', ' ', ' ', ' ']
        } else {
            seq![s[0]]
        };
        let tail = s.skip(1);
        assert forall|j: int| 0 <= j < tail.len() implies tail[j] != '\n' by {
            assert(tail[j] == s[j + 1]);
        }
        lemma_expand_tabs_no_newline(tail);
        assert forall|j: int| 0 <= j < expand_tabs(s).len() implies expand_tabs(s)[j] != '\n' by {
            if j < head.len() {
                assert(expand_tabs(s)[j] == head[j]);
            } else {
                assert(expand_tabs(s)[j] == expand_tabs(tail)[j - head.len()]);
            }
        }
    }
}

/// Tab expansion keeps a text non-empty, and its last character is the
/// input's last character unless that was a tab, which ends in a space.
proof fn lemma_expand_tabs_last(s: Seq<char>)
    requires
        s.len() > 0,
    ensures
        expand_tabs(s).len() > 0,
        expand_tabs(s).last() == (if s.last() == '\t' {
            ' '
        } else {
            s.last()
        }),
    decreases s.len(),
{
    let head = if s[0] == '\t' {
        seq![' ', ' ', ' ', ' ']
    } else {
        seq![s[0]]
    };
    if s.len() == 1 {
        assert(s.skip(1) == Seq::<char>::empty()) by {
            assert(s.skip(1) =~= Seq::<char>::empty());
        }
        assert(expand_tabs(Seq::<char>::empty()) == Seq::<char>::empty());
        assert(expand_tabs(s) =~= head);
        assert(s.last() == s[0]);
    } else {
        let tail = s.skip(1);
        lemma_expand_tabs_last(tail);
        assert(tail.last() == s.last());
        assert(expand_tabs(s).last() == expand_tabs(tail).last());
    }
}

/// One more saved line appends that line and a line feed to the stream.
proof fn lemma_serialized_take_succ(lines: Seq<Seq<char>>, r: int)
    requires
        0 <= r < lines.len(),
    ensures
        serialized(lines.take(r + 1)) == serialized(lines.take(r)) + lines[r] + seq!['\n'],
    decreases r,
{
    if r == 0 {
        assert(lines.take(1).skip(1) =~= Seq::<Seq<char>>::empty());
        assert(lines.take(1)[0] == lines[0]);
        assert(lines.take(0) =~= Seq::<Seq<char>>::empty());
        assert(serialized(lines.take(1)) =~= serialized(lines.take(0)) + lines[0] + seq!['\n']);
    } else {
        let t = lines.skip(1);
        lemma_serialized_take_succ(t, r - 1);
        assert(lines.take(r + 1).skip(1) =~= t.take(r));
        assert(lines.take(r).skip(1) =~= t.take(r - 1));
        assert(lines.take(r + 1)[0] == lines[0]);
        assert(lines.take(r)[0] == lines[0]);
        assert(t[r - 1] == lines[r]);
        assert(serialized(lines.take(r + 1)) =~= serialized(lines.take(r)) + lines[r]
            + seq!['\n']);
    }
}

/// Law: saving a document and loading the result yields the original
/// lines with their tabs expanded — provided no line holds a line feed
/// and no line ends in a carriage return, the two characters the stored
/// form cannot represent inside a line.
pub proof fn lemma_save_load_round_trip(lines: Seq<Seq<char>>)
    requires
        forall|i: int, j: int|
            0 <= i < lines.len() && 0 <= j < lines[i].len() ==> lines[i][j] != '\n',
        forall|i: int|
            0 <= i < lines.len() ==> (lines[i].len() == 0 || lines[i].last() != '\r'),
    ensures
        split_lines(expand_tabs(serialized(lines))) == lines.map_values(
            |l: Seq<char>| expand_tabs(l),
        ),
    decreases lines.len(),
{
    if lines.len() == 0 {
        assert(expand_tabs(serialized(lines)) =~= Seq::<char>::empty());
        assert(lines.map_values(|l: Seq<char>| expand_tabs(l)) =~= Seq::<Seq<char>>::empty());
    } else {
        let l0 = lines[0];
        let rest = lines.skip(1);
        assert forall|i: int, j: int|
            0 <= i < rest.len() && 0 <= j < rest[i].len() implies rest[i][j] != '\n' by {
            assert(rest[i] == lines[i + 1]);
        }
        assert forall|i: int|
            0 <= i < rest.len() implies (rest[i].len() == 0 || rest[i].last() != '\r') by {
            assert(rest[i] == lines[i + 1]);
        }
        lemma_save_load_round_trip(rest);

        // The saved stream is the first line, a line feed, and the rest.
        assert(serialized(lines) == l0 + seq!['\n'] + serialized(rest));
        lemma_expand_tabs_concat(l0 + seq!['\n'], serialized(rest));
        lemma_expand_tabs_concat(l0, seq!['\n']);
        assert(expand_tabs(seq!['\n']) =~= seq!['\n']) by {
            assert(seq!['\n'].skip(1) == Seq::<char>::empty()) by {
                assert(seq!['\n'].skip(1) =~= Seq::<char>::empty());
            }
            assert(expand_tabs(Seq::<char>::empty()) == Seq::<char>::empty());
            assert(seq!['\n'][0] == '\n');
        }
        let e0 = expand_tabs(l0);
        assert(expand_tabs(serialized(lines)) =~= e0 + seq!['\n'] + expand_tabs(
            serialized(rest),
        ));

        // The first expanded line is free of line feeds and does not end
        // in a carriage return, so splitting peels it off unchanged.
        assert(forall|j: int| 0 <= j < l0.len() ==> l0[j] != '\n');
        lemma_expand_tabs_no_newline(l0);
        if l0.len() > 0 {
            lemma_expand_tabs_last(l0);
        }
        assert(strip_cr(e0) == e0);
        lemma_split_lines_head(e0, expand_tabs(serialized(rest)));

        assert(lines.map_values(|l: Seq<char>| expand_tabs(l)) =~= seq![e0] + rest.map_values(
            |l: Seq<char>| expand_tabs(l),
        ));
        assert(split_lines(expand_tabs(serialized(lines))) =~= lines.map_values(
            |l: Seq<char>| expand_tabs(l),
        ));
    }
}

/// One line with its tabs expanded, for a loader that appends lines to a
/// shared document one at a time.
pub fn expand_line(text: &Vec<char>) -> (r: Vec<char>)
    ensures
        r@ == expand_tabs(text@),
{
    let mut out: Vec<char> = Vec::new();
    let n = text.len();
    let mut i: usize = 0;
    proof {
        assert(text@.take(0) =~= Seq::<char>::empty());
    }
    while i < n
        invariant
            i <= n,
            n == text@.len(),
            out@ == expand_tabs(text@.take(i as int)),
        decreases n - i,
    {
        let ghost pre = out@;
        let ch = text[i];
        if ch == '\t' {
            out.push(' ');
            out.push(' ');
            out.push(' ');
            out.push(' ');
        } else {
            out.push(ch);
        }
        proof {
            lemma_expand_tabs_concat(text@.take(i as int), seq![text@[i as int]]);
            assert(text@.take(i as int + 1) =~= text@.take(i as int) + seq![text@[i as int]]);
            assert(seq![text@[i as int]].skip(1) == Seq::<char>::empty()) by {
                assert(seq![text@[i as int]].skip(1) =~= Seq::<char>::empty());
            }
            assert(expand_tabs(Seq::<char>::empty()) == Seq::<char>::empty());
            assert(out@ =~= expand_tabs(text@.take(i as int + 1)));
        }
        i = i + 1;
    }
    proof {
        assert(text@.take(n as int) =~= text@);
    }
    out
}

impl TextBuf {
    /// The character stream to store, or `FileNotFound` when the session
    /// has no filename associated yet — the error that asks the host for
    /// a name, distinct from a real I/O failure.
    pub fn save_content(&self) -> (r: Result<Vec<char>, EditorError>)
        ensures
            self.filename is Some ==> r is Ok && r->Ok_0@ == serialized(self.lines()),
            self.filename is None ==> r == Err::<Vec<char>, EditorError>(
                EditorError::FileNotFound,
            ),
    {
        if self.filename.is_none() {
            return Err(EditorError::FileNotFound);
        }
        let mut out: Vec<char> = Vec::new();
        let count = self.line_count();
        let mut r: usize = 0;
        while r < count
            invariant
                r <= count,
                count == self.lines().len(),
                out@ == serialized(self.lines().take(r as int)),
            decreases count - r,
        {
            let llen = self.line_length(r);
            let mut c: usize = 0;
            while c < llen
                invariant
                    c <= llen,
                    r < count,
                    count == self.lines().len(),
                    llen == self.line(r as int).len(),
                    out@ == serialized(self.lines().take(r as int)) + self.line(r as int).take(
                        c as int,
                    ),
                decreases llen - c,
            {
                let ch = self.row_buffer[r][c];
                assert(ch == self.line(r as int)[c as int]);
                out.push(ch);
                proof {
                    assert(out@ =~= serialized(self.lines().take(r as int)) + self.line(
                        r as int,
                    ).take(c as int + 1));
                }
                c = c + 1;
            }
            out.push('\n');
            proof {
                lemma_serialized_take_succ(self.lines(), r as int);
                assert(self.line(r as int).take(llen as int) =~= self.line(r as int));
                assert(out@ =~= serialized(self.lines().take(r as int + 1)));
            }
            r = r + 1;
        }
        proof {
            assert(self.lines().take(count as int) =~= self.lines());
        }
        Ok(out)
    }

    /// Records that the content now on disk matches the buffer.
    pub fn mark_saved(&mut self)
        ensures
            !final(self).save_changed,
            final(self).lines() == old(self).lines(),
            final(self).cursor == old(self).cursor,
            final(self).dimensions == old(self).dimensions,
            final(self).viewport_v_offset == old(self).viewport_v_offset,
            final(self).viewport_h_offset == old(self).viewport_h_offset,
            final(self).filename == old(self).filename,
            final(self).dirty == old(self).dirty,
    {
        self.save_changed = false;
    }

    /// Associates a filename with the session.
    pub fn set_filename(&mut self, name: String)
        ensures
            final(self).filename == Some(name),
            final(self).lines() == old(self).lines(),
            final(self).cursor == old(self).cursor,
            final(self).dimensions == old(self).dimensions,
            final(self).viewport_v_offset == old(self).viewport_v_offset,
            final(self).viewport_h_offset == old(self).viewport_h_offset,
            final(self).save_changed == old(self).save_changed,
            final(self).dirty == old(self).dirty,
    {
        self.filename = Some(name);
    }

    /// A document built from the character stream of a file: the stream
    /// is split into lines, tabs expanded, the filename remembered, and
    /// the cursor and viewport start at the origin.
    pub fn from_text(text: &Vec<char>, filename: String, columns: u16, rows: u16) -> (buf:
        TextBuf)
        ensures
            buf.lines() == split_lines(expand_tabs(text@)),
            buf.cursor == (0usize, 0usize),
            buf.dimensions == (columns, rows),
            buf.viewport_v_offset == 0,
            buf.viewport_h_offset == 0,
            buf.filename == Some(filename),
            !buf.save_changed,
            buf.dirty,
            buf.inv(),
    {
        let mut lines_done: Vec<Vec<char>> = Vec::new();
        let mut cur: Vec<char> = Vec::new();
        let n = text.len();
        let mut i: usize = 0;
        proof {
            assert(text@.skip(0) == text@) by {
                assert(text@.skip(0) =~= text@);
            }
            assert(cur@ + expand_tabs(text@) == expand_tabs(text@)) by {
                assert(cur@ + expand_tabs(text@) =~= expand_tabs(text@));
            }
            assert(row_views(lines_done@) + split_lines(expand_tabs(text@)) =~= split_lines(
                expand_tabs(text@),
            ));
        }
        while i < n
            invariant
                i <= n,
                n == text@.len(),
                forall|j: int| 0 <= j < cur@.len() ==> cur@[j] != '\n',
                split_lines(expand_tabs(text@)) == row_views(lines_done@) + split_lines(
                    cur@ + expand_tabs(text@.skip(i as int)),
                ),
            decreases n - i,
        {
            let ghost pre_cur = cur@;
            let ghost pre_done = lines_done@;
            let ch = text[i];
            proof {
                assert(text@.skip(i as int)[0] == text@[i as int]);
                assert(text@.skip(i as int).skip(1) =~= text@.skip(i as int + 1));
            }
            if ch == '\t' {
                cur.push(' ');
                cur.push(' ');
                cur.push(' ');
                cur.push(' ');
                proof {
                    assert(pre_cur + expand_tabs(text@.skip(i as int)) =~= cur@ + expand_tabs(
                        text@.skip(i as int + 1),
                    ));
                }
            } else if ch == '\n' {
                let mut line = cur;
                cur = Vec::new();
                let ll = line.len();
                if ll > 0 && line[ll - 1] == '\r' {
                    line.pop();
                }
                proof {
                    assert(line@ =~= strip_cr(pre_cur));
                    assert(pre_cur + expand_tabs(text@.skip(i as int)) =~= pre_cur + seq!['\n']
                        + expand_tabs(text@.skip(i as int + 1)));
                    lemma_split_lines_head(pre_cur, expand_tabs(text@.skip(i as int + 1)));
                }
                lines_done.push(line);
                proof {
                    assert(row_views(lines_done@) =~= row_views(pre_done) + seq![
                        strip_cr(pre_cur),
                    ]);
                    assert(cur@ + expand_tabs(text@.skip(i as int + 1)) =~= expand_tabs(
                        text@.skip(i as int + 1),
                    ));
                    assert(row_views(pre_done) + split_lines(
                        pre_cur + expand_tabs(text@.skip(i as int)),
                    ) =~= row_views(lines_done@) + split_lines(
                        cur@ + expand_tabs(text@.skip(i as int + 1)),
                    ));
                }
            } else {
                cur.push(ch);
                proof {
                    assert(pre_cur + expand_tabs(text@.skip(i as int)) =~= cur@ + expand_tabs(
                        text@.skip(i as int + 1),
                    ));
                }
            }
            i = i + 1;
        }
        proof {
            assert(text@.skip(n as int) =~= Seq::<char>::empty());
            assert(cur@ + expand_tabs(text@.skip(n as int)) =~= cur@);
        }
        if cur.len() > 0 {
            proof {
                lemma_split_lines_single(cur@);
            }
            let ghost cur_v = cur@;
            let ghost pre_done = lines_done@;
            lines_done.push(cur);
            proof {
                assert(row_views(lines_done@) =~= row_views(pre_done) + seq![cur_v]);
                assert(row_views(lines_done@) =~= split_lines(expand_tabs(text@)));
            }
        } else {
            proof {
                assert(split_lines(cur@) =~= Seq::<Seq<char>>::empty());
                assert(row_views(lines_done@) =~= split_lines(expand_tabs(text@)));
            }
        }
        TextBuf {
            row_buffer: lines_done,
            cursor: (0, 0),
            dimensions: (columns, rows),
            viewport_v_offset: 0,
            viewport_h_offset: 0,
            filename: Some(filename),
            save_changed: false,
            dirty: true,
        }
    }
}

} // verus!
