//! The multi-line input box: lines of characters under a cursor, with
//! soft wrapping at a fixed width.

use vstd::prelude::*;

use crate::text::{str_chars, string_from_chars};

verus! {

/// The message the box holds, as one character sequence with newlines.
pub open spec fn spec_joined(text: Seq<Seq<char>>) -> Seq<char>
    decreases text.len(),
{
    if text.len() == 0 {
        Seq::empty()
    } else if text.len() == 1 {
        text[0]
    } else {
        spec_joined(text.drop_last()) + seq!['\n'] + text.last()
    }
}

/// Rows the box needs: every started wrap chunk past the first of each
/// line, plus a whole row for an empty line.
pub open spec fn spec_box_rows(text: Seq<Seq<char>>, w: int) -> int
    decreases text.len(),
{
    if text.len() == 0 {
        0
    } else {
        spec_box_rows(text.drop_last(), w) + (if text.last().len() == 0 {
            1int
        } else {
            (text.last().len() - 1) / w
        })
    }
}

/// An editable text area of a fixed wrap width.
pub struct Textbox {
    /// The lines; there is always at least one.
    pub text: Vec<Vec<char>>,
    pub cursor_line: usize,
    pub cursor_pos: usize,
    pub flag: bool,
    /// The wrap width.
    pub length: usize,
}

impl Textbox {
    /// The cursor sits on a line, at or before its end, and the wrap
    /// width is positive.
    pub open spec fn wf(&self) -> bool {
        &&& self.text@.len() >= 1
        &&& self.cursor_line < self.text@.len()
        &&& self.cursor_pos <= self.text@[self.cursor_line as int]@.len()
        &&& self.length >= 1
    }

    pub fn new(length: usize) -> (r: Textbox)
        requires
            length >= 1,
        ensures
            r.wf(),
            r.text@.len() == 1,
            r.text@[0]@.len() == 0,
            r.cursor_line == 0,
            r.cursor_pos == 0,
            r.flag,
            r.length == length,
    {
        let mut text: Vec<Vec<char>> = Vec::new();
        text.push(Vec::new());
        Textbox { text, cursor_line: 0, cursor_pos: 0, flag: true, length }
    }

    /// Appends text at the end of the box: the first given line extends
    /// the last existing line, every further one becomes a line of its
    /// own.  The cursor stays where it was.
    pub fn add_to_end(&mut self, lines: Vec<String>)
        requires
            old(self).wf(),
            lines@.len() >= 1,
            old(self).text@.len() + lines@.len() < usize::MAX,
        ensures
            final(self).wf(),
            final(self).flag,
            final(self).text@.len() == old(self).text@.len() + lines@.len() - 1,
            ({
                let n = old(self).text@.len() as int;
                &&& forall|k: int| 0 <= k < n - 1 ==> final(self).text@[k] == #[trigger] old(self).text@[k]
                &&& final(self).text@[n - 1]@ == old(self).text@[n - 1]@ + lines@[0]@
                &&& forall|j: int|
                    1 <= j < lines@.len() ==> final(self).text@[n - 1 + j]@ == #[trigger] lines@[j]@
            }),
            final(self).cursor_line == old(self).cursor_line,
            final(self).cursor_pos == old(self).cursor_pos,
            final(self).length == old(self).length,
    {
        self.flag = true;
        let ghost n = self.text@.len() as int;
        let ghost all = lines@;
        let mut lines = lines;
        let mut j: usize = 0;
        let total = lines.len();
        proof {
            assert(all.skip(0) =~= all);
        }
        while lines.len() > 0
            invariant
                lines@ == all.skip(j as int),
                j <= all.len(),
                all.len() == total,
                n == old(self).text@.len() as int,
                n + total < usize::MAX,
                n >= 1,
                j == 0 ==> self.text@ == old(self).text@,
                j >= 1 ==> {
                    &&& self.text@.len() == n + j - 1
                    &&& forall|k: int| 0 <= k < n - 1 ==> self.text@[k] == #[trigger] old(self).text@[k]
                    &&& self.text@[n - 1]@ == old(self).text@[n - 1]@ + all[0]@
                    &&& forall|i: int| 1 <= i < j ==> self.text@[n - 1 + i]@ == #[trigger] all[i]@
                },
                self.text@.len() >= 1,
                self.cursor_line == old(self).cursor_line,
                self.cursor_pos == old(self).cursor_pos,
                self.length == old(self).length,
                self.flag,
            decreases all.len() - j,
        {
            proof {
                assert(all.skip(j as int).len() > 0);
            }
            let line = lines.remove(0);
            proof {
                assert(line == all[j as int]);
                assert(all.skip(j as int).remove(0) =~= all.skip(j + 1));
            }
            let mut chars = str_chars(line.as_str());
            if j == 0 {
                let li = self.text.len() - 1;
                let slot = &mut self.text[li];
                slot.append(&mut chars);
            } else {
                self.text.push(chars);
            }
            j = j + 1;
        }
        proof {
            assert(old(self).wf());
            assert(self.cursor_line < self.text@.len());
            assert(self.cursor_pos <= self.text@[self.cursor_line as int]@.len());
        }
    }

    /// Inserts a character at the cursor.
    pub fn add_char(&mut self, c: char)
        requires
            old(self).wf(),
            old(self).text@[old(self).cursor_line as int]@.len() < usize::MAX,
        ensures
            final(self).wf(),
            final(self).flag,
            final(self).text@.len() == old(self).text@.len(),
            final(self).text@[old(self).cursor_line as int]@ == old(self).text@[old(self).cursor_line as int]@.insert(old(self).cursor_pos as int, c),
            forall|k: int|
                0 <= k < old(self).text@.len() && k != old(self).cursor_line ==> final(self).text@[k] == #[trigger] old(self).text@[k],
            final(self).cursor_line == old(self).cursor_line,
            final(self).cursor_pos == old(self).cursor_pos + 1,
            final(self).length == old(self).length,
    {
        let li = self.cursor_line;
        let slot = &mut self.text[li];
        slot.insert(self.cursor_pos, c);
        self.cursor_pos = self.cursor_pos + 1;
        self.flag = true;
    }

    /// Deletes backward: the character before the cursor, or — at a line
    /// start — the line break, joining the line into the previous one.
    /// Returns what was deleted.
    pub fn backspace(&mut self) -> (r: Option<char>)
        requires
            old(self).wf(),
        ensures
            final(self).wf(),
            final(self).flag,
            final(self).length == old(self).length,
            old(self).cursor_pos > 0 ==> {
                &&& r == Some(
                    old(self).text@[old(self).cursor_line as int]@[old(self).cursor_pos - 1],
                )
                &&& final(self).text@.len() == old(self).text@.len()
                &&& final(self).text@[old(self).cursor_line as int]@ == old(self).text@[old(self).cursor_line as int]@.remove(old(self).cursor_pos - 1)
                &&& forall|k: int|
                    0 <= k < old(self).text@.len() && k != old(self).cursor_line ==> final(self).text@[k] == #[trigger] old(self).text@[k]
                &&& final(self).cursor_line == old(self).cursor_line
                &&& final(self).cursor_pos == old(self).cursor_pos - 1
            },
            old(self).cursor_pos == 0 && old(self).cursor_line > 0 ==> {
                &&& r == Some('\n')
                &&& final(self).text@.len() == old(self).text@.len() - 1
                &&& final(self).cursor_line == old(self).cursor_line - 1
                &&& final(self).cursor_pos == old(self).text@[old(self).cursor_line - 1]@.len()
                &&& final(self).text@[old(self).cursor_line - 1]@ == old(self).text@[old(self).cursor_line - 1]@ + old(self).text@[old(self).cursor_line as int]@
                &&& forall|k: int|
                    0 <= k < old(self).cursor_line - 1 ==> final(self).text@[k] == #[trigger] old(self).text@[k]
                &&& forall|k: int|
                    old(self).cursor_line <= k < old(self).text@.len() - 1 ==> #[trigger] final(self).text@[k] == old(self).text@[k + 1]
            },
            old(self).cursor_pos == 0 && old(self).cursor_line == 0 ==> r is None && final(self).text@ == old(self).text@,
    {
        self.flag = true;
        if self.cursor_pos > 0 {
            self.cursor_pos = self.cursor_pos - 1;
            let li = self.cursor_line;
            let slot = &mut self.text[li];
            Some(slot.remove(self.cursor_pos))
        } else if self.cursor_line > 0 {
            let mut line = self.text.remove(self.cursor_line);
            self.cursor_line = self.cursor_line - 1;
            let li = self.cursor_line;
            let slot = &mut self.text[li];
            self.cursor_pos = slot.len();
            slot.append(&mut line);
            Some('\n')
        } else {
            None
        }
    }

    /// Deletes forward: the character under the cursor, or — at a line
    /// end — the line break, joining the next line into this one.
    /// Returns what was deleted.
    pub fn delete(&mut self) -> (r: Option<char>)
        requires
            old(self).wf(),
        ensures
            final(self).wf(),
            final(self).flag,
            final(self).length == old(self).length,
            final(self).cursor_line == old(self).cursor_line,
            final(self).cursor_pos == old(self).cursor_pos,
            old(self).cursor_pos < old(self).text@[old(self).cursor_line as int]@.len() ==> {
                &&& r == Some(old(self).text@[old(self).cursor_line as int]@[old(self).cursor_pos as int])
                &&& final(self).text@.len() == old(self).text@.len()
                &&& final(self).text@[old(self).cursor_line as int]@ == old(self).text@[old(self).cursor_line as int]@.remove(old(self).cursor_pos as int)
                &&& forall|k: int|
                    0 <= k < old(self).text@.len() && k != old(self).cursor_line ==> final(self).text@[k] == #[trigger] old(self).text@[k]
            },
            old(self).cursor_pos == old(self).text@[old(self).cursor_line as int]@.len() && old(self).cursor_line < old(self).text@.len() - 1 ==> {
                &&& r == Some('\n')
                &&& final(self).text@.len() == old(self).text@.len() - 1
                &&& final(self).text@[old(self).cursor_line as int]@ == old(self).text@[old(self).cursor_line as int]@ + old(self).text@[old(self).cursor_line + 1]@
                &&& forall|k: int|
                    0 <= k < old(self).cursor_line ==> final(self).text@[k] == #[trigger] old(self).text@[k]
                &&& forall|k: int|
                    old(self).cursor_line + 1 <= k < old(self).text@.len() - 1 ==> #[trigger] final(self).text@[k] == old(self).text@[k + 1]
            },
            old(self).cursor_pos == old(self).text@[old(self).cursor_line as int]@.len() && old(self).cursor_line == old(self).text@.len() - 1 ==> r is None && final(self).text@ == old(self).text@,
    {
        self.flag = true;
        let li = self.cursor_line;
        let line_len = self.text[li].len();
        if self.cursor_pos < line_len {
            let slot = &mut self.text[li];
            Some(slot.remove(self.cursor_pos))
        } else if self.cursor_line < self.text.len() - 1 {
            let mut line = self.text.remove(self.cursor_line + 1);
            let slot = &mut self.text[li];
            slot.append(&mut line);
            Some('\n')
        } else {
            None
        }
    }

    /// Rows the box content needs on screen.
    pub fn lines(&self) -> (r: usize)
        requires
            self.wf(),
            spec_box_rows(self.text@.map_values(|l: Vec<char>| l@), self.length as int)
                <= usize::MAX,
        ensures
            r == spec_box_rows(self.text@.map_values(|l: Vec<char>| l@), self.length as int),
    {
        let ghost all: Seq<Seq<char>> = self.text@.map_values(|l: Vec<char>| l@);
        let mut i: usize = 0;
        let mut r: usize = 0;
        proof {
            assert(all.subrange(0, 0) =~= Seq::<Seq<char>>::empty());
            lemma_box_rows_prefix(all, self.length as int, 0);
        }
        while i < self.text.len()
            invariant
                self.wf(),
                all == self.text@.map_values(|l: Vec<char>| l@),
                i <= all.len(),
                r == spec_box_rows(all.subrange(0, i as int), self.length as int),
                spec_box_rows(all, self.length as int) <= usize::MAX,
            decreases all.len() - i,
        {
            proof {
                lemma_box_rows_prefix(all, self.length as int, i + 1);
                assert(all.subrange(0, i + 1).drop_last() =~= all.subrange(0, i as int));
                assert(all.subrange(0, i + 1).last() == all[i as int]);
            }
            let len = self.text[i].len();
            if len == 0 {
                r = r + 1;
            } else {
                r = r + (len - 1) / self.length;
            }
            i = i + 1;
        }
        proof {
            assert(all.subrange(0, all.len() as int) =~= all);
        }
        r
    }

    /// Empties the box and hands its content back as one string, lines
    /// joined with newlines.
    pub fn flush(&mut self) -> (r: String)
        requires
            old(self).wf(),
        ensures
            final(self).wf(),
            final(self).flag,
            final(self).text@.len() == 1,
            final(self).text@[0]@.len() == 0,
            final(self).cursor_line == 0,
            final(self).cursor_pos == 0,
            final(self).length == old(self).length,
            r@ == spec_joined(old(self).text@.map_values(|l: Vec<char>| l@)),
    {
        self.flag = true;
        self.cursor_pos = 0;
        self.cursor_line = 0;
        let ghost all: Seq<Seq<char>> = self.text@.map_values(|l: Vec<char>| l@);
        let mut out: Vec<char> = Vec::new();
        let mut i: usize = 0;
        proof {
            assert(all.len() >= 1);
            assert(all.subrange(0, 1) =~= seq![all[0]]);
        }
        while i < self.text.len()
            invariant
                all == self.text@.map_values(|l: Vec<char>| l@),
                self.text@.len() >= 1,
                i <= all.len(),
                i == 0 ==> out@.len() == 0,
                i >= 1 ==> out@ == spec_joined(all.subrange(0, i as int)),
            decreases all.len() - i,
        {
            proof {
                assert(all.subrange(0, i + 1).drop_last() =~= all.subrange(0, i as int));
                assert(all.subrange(0, i + 1).last() == all[i as int]);
                if i == 1 {
                    assert(all.subrange(0, 1) =~= seq![all[0]]);
                    assert(spec_joined(all.subrange(0, 1)) == all[0]);
                }
            }
            if i > 0 {
                out.push('\n');
            }
            let line = &self.text[i];
            let mut j: usize = 0;
            let ghost base = out@;
            proof {
                assert(base + line@.subrange(0, 0) =~= base);
            }
            while j < line.len()
                invariant
                    j <= line@.len(),
                    out@ == base + line@.subrange(0, j as int),
                decreases line@.len() - j,
            {
                out.push(line[j]);
                j = j + 1;
                proof {
                    assert(base + line@.subrange(0, j as int) =~= (base + line@.subrange(
                        0,
                        j - 1,
                    )).push(line@[j - 1]));
                }
            }
            proof {
                assert(out@ =~= base + line@);
                if i == 0 {
                    assert(base.len() == 0);
                    assert(out@ =~= all[0]);
                    assert(all.subrange(0, 1) =~= seq![all[0]]);
                } else {
                    assert(out@ =~= spec_joined(all.subrange(0, i as int)) + seq!['\n']
                        + all[i as int]);
                }
            }
            i = i + 1;
        }
        proof {
            assert(all.subrange(0, all.len() as int) =~= all);
        }
        let r = string_from_chars(&out);
        let mut text: Vec<Vec<char>> = Vec::new();
        text.push(Vec::new());
        self.text = text;
        r
    }

    /// Splits the current line at the cursor; the cursor moves to the
    /// start of the new line.
    pub fn newline(&mut self)
        requires
            old(self).wf(),
            old(self).text@.len() < usize::MAX,
        ensures
            final(self).wf(),
            final(self).flag,
            final(self).length == old(self).length,
            final(self).text@.len() == old(self).text@.len() + 1,
            final(self).text@[old(self).cursor_line as int]@ == old(self).text@[old(self).cursor_line as int]@.take(old(self).cursor_pos as int),
            final(self).text@[old(self).cursor_line + 1]@ == old(self).text@[old(self).cursor_line as int]@.skip(old(self).cursor_pos as int),
            forall|k: int|
                0 <= k < old(self).cursor_line ==> final(self).text@[k] == #[trigger] old(self).text@[k],
            forall|k: int|
                old(self).cursor_line + 1 <= k < old(self).text@.len() ==> #[trigger] final(self).text@[k + 1] == old(self).text@[k],
            final(self).cursor_line == old(self).cursor_line + 1,
            final(self).cursor_pos == 0,
    {
        self.flag = true;
        let li = self.cursor_line;
        let slot = &mut self.text[li];
        let newvec: Vec<char> = slot.split_off(self.cursor_pos);
        self.cursor_line = self.cursor_line + 1;
        self.cursor_pos = 0;
        self.text.insert(self.cursor_line, newvec);
    }

    /// Moves the cursor one wrapped row up: within a long line, a whole
    /// wrap chunk; otherwise onto the previous line, into the matching
    /// wrap column, clamped to that line's end.
    pub fn up(&mut self)
        requires
            old(self).wf(),
        ensures
            final(self).wf(),
            final(self).flag,
            final(self).text@ == old(self).text@,
            final(self).length == old(self).length,
            final(self).cursor_line <= old(self).cursor_line,
    {
        self.flag = true;
        if self.cursor_pos >= self.length {
            self.cursor_pos = self.cursor_pos - self.length;
        } else if self.cursor_line == 0 {
            self.cursor_pos = 0;
        } else {
            self.cursor_line = self.cursor_line - 1;
            self.cursor_pos = self.cursor_pos % self.length;
            let li = self.cursor_line;
            let line_len = self.text[li].len();
            if line_len > self.length {
                while self.cursor_pos < line_len - self.length
                    invariant
                        self.wf(),
                        line_len > self.length,
                        li == self.cursor_line,
                        line_len == self.text@[li as int]@.len(),
                        self.length >= 1,
                        self.text@ == old(self).text@,
                        self.flag,
                        self.length == old(self).length,
                    decreases line_len - self.cursor_pos,
                {
                    self.cursor_pos = self.cursor_pos + self.length;
                }
            }
            if self.cursor_pos > line_len {
                self.cursor_pos = line_len;
            }
        }
    }

    /// Moves the cursor one wrapped row down, mirroring `up`.
    pub fn down(&mut self)
        requires
            old(self).wf(),
        ensures
            final(self).wf(),
            final(self).flag,
            final(self).text@ == old(self).text@,
            final(self).length == old(self).length,
            final(self).cursor_line >= old(self).cursor_line,
            ({
                let line_len = old(self).text@[old(self).cursor_line as int]@.len();
                old(self).cursor_line == old(self).text@.len() - 1 && line_len - old(self).cursor_pos < old(self).length ==> final(self).cursor_line == old(self).cursor_line && final(self).cursor_pos == line_len
            }),
    {
        self.flag = true;
        let li = self.cursor_line;
        let line_len = self.text[li].len();
        if line_len - self.cursor_pos >= self.length {
            self.cursor_pos = self.cursor_pos + self.length;
        } else if self.cursor_line == self.text.len() - 1 {
            self.cursor_pos = line_len;
        } else {
            self.cursor_line = self.cursor_line + 1;
            self.cursor_pos = self.cursor_pos % self.length;
            let li2 = self.cursor_line;
            let next_len = self.text[li2].len();
            if self.cursor_pos > next_len {
                self.cursor_pos = next_len;
            }
        }
    }

    /// Moves the cursor one character left, crossing line breaks.
    pub fn left(&mut self)
        requires
            old(self).wf(),
        ensures
            final(self).wf(),
            final(self).flag,
            final(self).text@ == old(self).text@,
            final(self).length == old(self).length,
            old(self).cursor_pos == 0 && old(self).cursor_line > 0 ==> final(self).cursor_line
                == old(self).cursor_line - 1 && final(self).cursor_pos == old(self).text@[old(self).cursor_line - 1]@.len(),
            old(self).cursor_pos > 0 ==> final(self).cursor_line == old(self).cursor_line && final(self).cursor_pos == old(self).cursor_pos - 1,
            old(self).cursor_pos == 0 && old(self).cursor_line == 0 ==> final(self).cursor_line
                == 0 && final(self).cursor_pos == 0,
    {
        self.flag = true;
        if self.cursor_pos == 0 && self.cursor_line > 0 {
            self.cursor_line = self.cursor_line - 1;
            let li = self.cursor_line;
            self.cursor_pos = self.text[li].len();
        } else if self.cursor_pos != 0 {
            self.cursor_pos = self.cursor_pos - 1;
        }
    }

    /// Moves the cursor one character right, crossing line breaks.
    pub fn right(&mut self)
        requires
            old(self).wf(),
        ensures
            final(self).wf(),
            final(self).flag,
            final(self).text@ == old(self).text@,
            final(self).length == old(self).length,
            ({
                let at_end = old(self).cursor_pos == old(self).text@[old(self).cursor_line as int]@.len();
                if at_end && old(self).cursor_line < old(self).text@.len() - 1 {
                    final(self).cursor_line == old(self).cursor_line + 1 && final(self).cursor_pos == 0
                } else if !at_end {
                    final(self).cursor_line == old(self).cursor_line && final(self).cursor_pos
                        == old(self).cursor_pos + 1
                } else {
                    final(self).cursor_line == old(self).cursor_line && final(self).cursor_pos
                        == old(self).cursor_pos
                }
            }),
    {
        self.flag = true;
        let li = self.cursor_line;
        let line_len = self.text[li].len();
        if self.cursor_pos == line_len && self.cursor_line < self.text.len() - 1 {
            self.cursor_line = self.cursor_line + 1;
            self.cursor_pos = 0;
        } else if self.cursor_pos < line_len {
            self.cursor_pos = self.cursor_pos + 1;
        }
    }

    pub fn flag(&mut self)
        ensures
            *final(self) == (Textbox { flag: true, ..*old(self) }),
    {
        self.flag = true;
    }
}

/// A prefix of the lines never needs more rows than all of them.
pub proof fn lemma_box_rows_prefix(ls: Seq<Seq<char>>, w: int, i: int)
    requires
        w >= 1,
        0 <= i <= ls.len(),
    ensures
        spec_box_rows(ls.subrange(0, i), w) <= spec_box_rows(ls, w),
        spec_box_rows(ls.subrange(0, i), w) >= 0,
    decreases ls.len() - i,
{
    if i == ls.len() {
        assert(ls.subrange(0, i) =~= ls);
        lemma_box_rows_nonneg(ls, w);
    } else {
        lemma_box_rows_prefix(ls, w, i + 1);
        assert(ls.subrange(0, i + 1).drop_last() =~= ls.subrange(0, i));
        lemma_box_rows_nonneg(ls.subrange(0, i), w);
    }
}

pub proof fn lemma_box_rows_nonneg(ls: Seq<Seq<char>>, w: int)
    requires
        w >= 1,
    ensures
        spec_box_rows(ls, w) >= 0,
    decreases ls.len(),
{
    if ls.len() > 0 {
        lemma_box_rows_nonneg(ls.drop_last(), w);
    }
}

} // verus!
