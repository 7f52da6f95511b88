use crate::text::find_newline;
use crate::text::first_newline_from;
use crate::text::line_count;
use crate::text::line_start_index;
use crate::text::line_start_pos;
use crate::text::to_upper_char;
use crate::text::upper_char;
use crate::text::word_left_index;
use crate::text::word_left_pos;
use crate::text::word_right_index;
use crate::text::word_right_pos;
use vstd::prelude::*;
use vstd::string::StrSliceExecFns;
use vstd::string::StringExecFns;

verus! {

/// Relies on String::push: appends exactly the given character.
#[verifier::external_body]
fn push_char(s: &mut String, c: char)
    ensures
        final(s)@ == old(s)@.push(c),
{
    s.push(c)
}

/// The editable, possibly multi-line text together with the cursor offset.
/// The cursor is a character position in `[0, len]`; every operation keeps
/// it inside those bounds.
pub struct LineBuffer {
    buffer: String,
    insertion_point: usize,
}

impl LineBuffer {
    /// The text as a sequence of characters.
    pub closed spec fn text(&self) -> Seq<char> {
        self.buffer@
    }

    /// The cursor as a character offset into `text()`.
    pub closed spec fn cursor(&self) -> nat {
        self.insertion_point as nat
    }

    /// The cursor never points past the end of the text.
    pub open spec fn wf(&self) -> bool {
        self.cursor() <= self.text().len()
    }

    /// An empty buffer with the cursor at the start.
    pub fn new() -> (r: LineBuffer)
        ensures
            r.wf(),
            r.text() == Seq::<char>::empty(),
            r.cursor() == 0,
    {
        LineBuffer { buffer: String::new(), insertion_point: 0 }
    }

    /// Replace the characters in `[from, to)` with `insert`, leaving the
    /// cursor untouched (callers fix it up to the position they need).
    fn splice(&mut self, from: usize, to: usize, insert: &str)
        requires
            from <= to <= old(self).text().len(),
        ensures
            final(self).text() == old(self).text().take(from as int) + insert@ + old(
                self,
            ).text().skip(to as int),
            final(self).insertion_point == old(self).insertion_point,
    {
        let n = self.buffer.unicode_len();
        let mut out = String::new();
        out.append(self.buffer.as_str().substring_char(0, from));
        out.append(insert);
        out.append(self.buffer.as_str().substring_char(to, n));
        proof {
            assert(old(self).text().subrange(0, from as int) =~= old(self).text().take(from as int));
            assert(old(self).text().subrange(to as int, n as int) =~= old(self).text().skip(
                to as int,
            ));
        }
        self.buffer = out;
    }

    /// Insert one character at the cursor; the cursor moves past it.
    pub fn insert_char(&mut self, c: char)
        requires
            old(self).wf(),
        ensures
            final(self).wf(),
            final(self).text() == old(self).text().take(old(self).cursor() as int).push(c) + old(
                self,
            ).text().skip(old(self).cursor() as int),
            final(self).cursor() == old(self).cursor() + 1,
    {
        let mut one = String::new();
        push_char(&mut one, c);
        let at = self.insertion_point;
        proof {
            assert(old(self).text().take(at as int) + one@ =~= old(self).text().take(
                at as int,
            ).push(c));
        }
        self.splice(at, at, one.as_str());
        let grown = self.buffer.unicode_len();
        assert(at < grown);
        self.insertion_point = at + 1;
    }

    /// Insert a string at the cursor; the cursor moves past it.
    pub fn insert_str(&mut self, t: &str)
        requires
            old(self).wf(),
        ensures
            final(self).wf(),
            final(self).text() == old(self).text().take(old(self).cursor() as int) + t@ + old(
                self,
            ).text().skip(old(self).cursor() as int),
            final(self).cursor() == old(self).cursor() + t@.len(),
    {
        let at = self.insertion_point;
        let added = t.unicode_len();
        self.splice(at, at, t);
        let grown = self.buffer.unicode_len();
        assert(at + added <= grown);
        self.insertion_point = at + added;
    }

    /// Remove the character before the cursor, if any.
    pub fn backspace(&mut self)
        requires
            old(self).wf(),
        ensures
            final(self).wf(),
            old(self).cursor() == 0 ==> *final(self) == *old(self),
            old(self).cursor() > 0 ==> final(self).text() == old(self).text().take(
                old(self).cursor() - 1,
            ) + old(self).text().skip(old(self).cursor() as int) && final(self).cursor() == old(
                self,
            ).cursor() - 1,
    {
        if self.insertion_point > 0 {
            let at = self.insertion_point;
            let empty = String::new();
            self.splice(at - 1, at, empty.as_str());
            proof {
                assert(old(self).text().take(at - 1) + Seq::<char>::empty() + old(
                    self,
                ).text().skip(at as int) =~= old(self).text().take(at - 1) + old(self).text().skip(
                    at as int,
                ));
            }
            self.insertion_point = at - 1;
        }
    }

    /// Remove the character under the cursor, if any.
    pub fn delete(&mut self)
        requires
            old(self).wf(),
        ensures
            final(self).wf(),
            old(self).cursor() == old(self).text().len() ==> *final(self) == *old(self),
            old(self).cursor() < old(self).text().len() ==> final(self).text() == old(
                self,
            ).text().take(old(self).cursor() as int) + old(self).text().skip(
                old(self).cursor() + 1int,
            ) && final(self).cursor() == old(self).cursor(),
    {
        let n = self.buffer.unicode_len();
        if self.insertion_point < n {
            let at = self.insertion_point;
            let empty = String::new();
            self.splice(at, at + 1, empty.as_str());
            proof {
                assert(old(self).text().take(at as int) + Seq::<char>::empty() + old(
                    self,
                ).text().skip(at + 1) =~= old(self).text().take(at as int) + old(self).text().skip(
                    at + 1,
                ));
            }
        }
    }

    /// Remove the characters in `[from, to)`. A cursor inside the removed
    /// range lands at its start; one behind it moves up with the text; one
    /// before it stays put. It never leaves the text.
    pub fn delete_range(&mut self, from: usize, to: usize)
        requires
            old(self).wf(),
            from <= to <= old(self).text().len(),
        ensures
            final(self).wf(),
            final(self).text() == old(self).text().take(from as int) + old(self).text().skip(
                to as int,
            ),
            final(self).cursor() == (if old(self).cursor() <= from {
                old(self).cursor() as int
            } else if old(self).cursor() <= to {
                from as int
            } else {
                old(self).cursor() - (to - from)
            }),
    {
        let at = self.insertion_point;
        let empty = String::new();
        self.splice(from, to, empty.as_str());
        proof {
            assert(old(self).text().take(from as int) + Seq::<char>::empty() + old(
                self,
            ).text().skip(to as int) =~= old(self).text().take(from as int) + old(self).text().skip(
                to as int,
            ));
        }
        if at > from {
            if at <= to {
                self.insertion_point = from;
            } else {
                self.insertion_point = at - (to - from);
            }
        }
    }

    /// Remove the word (or punctuation cluster) before the cursor together
    /// with the blanks that separate it from the cursor.
    pub fn backspace_word(&mut self)
        requires
            old(self).wf(),
        ensures
            final(self).wf(),
            final(self).text() == old(self).text().take(
                word_left_pos(old(self).text(), old(self).cursor()) as int,
            ) + old(self).text().skip(old(self).cursor() as int),
            final(self).cursor() == word_left_pos(old(self).text(), old(self).cursor()),
    {
        let at = self.insertion_point;
        let start = word_left_index(self.buffer.as_str(), at);
        let empty = String::new();
        self.splice(start, at, empty.as_str());
        proof {
            assert(old(self).text().take(start as int) + Seq::<char>::empty() + old(
                self,
            ).text().skip(at as int) =~= old(self).text().take(start as int) + old(
                self,
            ).text().skip(at as int));
        }
        self.insertion_point = start;
    }

    /// Uppercase the word the cursor is in or before, moving the cursor to
    /// its end.
    pub fn uppercase_word(&mut self)
        requires
            old(self).wf(),
        ensures
            final(self).wf(),
            final(self).text() == old(self).text().take(old(self).cursor() as int) + old(
                self,
            ).text().subrange(
                old(self).cursor() as int,
                word_right_pos(old(self).text(), old(self).cursor()) as int,
            ).map_values(|c: char| upper_char(c)) + old(self).text().skip(
                word_right_pos(old(self).text(), old(self).cursor()) as int,
            ),
            final(self).cursor() == word_right_pos(old(self).text(), old(self).cursor()),
    {
        let at = self.insertion_point;
        let stop = word_right_index(self.buffer.as_str(), at);
        let ghost mapped = old(self).text().subrange(at as int, stop as int).map_values(
            |c: char| upper_char(c),
        );
        let mut upper = String::new();
        let mut i: usize = at;
        while i < stop
            invariant
                at <= i <= stop <= self.text().len(),
                *self == *old(self),
                upper@ =~= old(self).text().subrange(at as int, i as int).map_values(
                    |c: char| upper_char(c),
                ),
            decreases stop - i,
        {
            let c = self.buffer.as_str().get_char(i);
            push_char(&mut upper, to_upper_char(c));
            proof {
                assert(old(self).text().subrange(at as int, i + 1).map_values(
                    |c: char| upper_char(c),
                ) =~= old(self).text().subrange(at as int, i as int).map_values(
                    |c: char| upper_char(c),
                ).push(upper_char(old(self).text()[i as int])));
            }
            i = i + 1;
        }
        self.splice(at, stop, upper.as_str());
        self.insertion_point = stop;
    }

    /// Move the cursor one character leftward, stopping at the start.
    pub fn move_left(&mut self)
        requires
            old(self).wf(),
        ensures
            final(self).wf(),
            final(self).text() == old(self).text(),
            final(self).cursor() == (if old(self).cursor() > 0 {
                old(self).cursor() - 1
            } else {
                0int
            }),
    {
        if self.insertion_point > 0 {
            self.insertion_point = self.insertion_point - 1;
        }
    }

    /// Move the cursor one character rightward, stopping at the end.
    pub fn move_right(&mut self)
        requires
            old(self).wf(),
        ensures
            final(self).wf(),
            final(self).text() == old(self).text(),
            final(self).cursor() == (if old(self).cursor() < old(self).text().len() {
                old(self).cursor() + 1int
            } else {
                old(self).cursor() as int
            }),
    {
        let n = self.buffer.unicode_len();
        if self.insertion_point < n {
            self.insertion_point = self.insertion_point + 1;
        }
    }

    /// Move the cursor to the start of the buffer.
    pub fn move_to_start(&mut self)
        requires
            old(self).wf(),
        ensures
            final(self).wf(),
            final(self).text() == old(self).text(),
            final(self).cursor() == 0,
    {
        self.insertion_point = 0;
    }

    /// Move the cursor to the end of the buffer.
    pub fn move_to_end(&mut self)
        requires
            old(self).wf(),
        ensures
            final(self).wf(),
            final(self).text() == old(self).text(),
            final(self).cursor() == old(self).text().len(),
    {
        self.insertion_point = self.buffer.unicode_len();
    }

    /// Move the cursor to the start of the line it sits on.
    pub fn move_to_line_start(&mut self)
        requires
            old(self).wf(),
        ensures
            final(self).wf(),
            final(self).text() == old(self).text(),
            final(self).cursor() == line_start_pos(old(self).text(), old(self).cursor()),
    {
        self.insertion_point = line_start_index(self.buffer.as_str(), self.insertion_point);
    }

    /// Move the cursor to the end of the line it sits on.
    pub fn move_to_line_end(&mut self)
        requires
            old(self).wf(),
        ensures
            final(self).wf(),
            final(self).text() == old(self).text(),
            final(self).cursor() == first_newline_from(old(self).text(), old(self).cursor() as int),
    {
        self.insertion_point = find_newline(self.buffer.as_str(), self.insertion_point);
    }

    /// Move the cursor to the start of the word (or punctuation cluster)
    /// before it.
    pub fn move_word_left(&mut self)
        requires
            old(self).wf(),
        ensures
            final(self).wf(),
            final(self).text() == old(self).text(),
            final(self).cursor() == word_left_pos(old(self).text(), old(self).cursor()),
    {
        self.insertion_point = word_left_index(self.buffer.as_str(), self.insertion_point);
    }

    /// Move the cursor to the end of the word (or punctuation cluster)
    /// after it.
    pub fn move_word_right(&mut self)
        requires
            old(self).wf(),
        ensures
            final(self).wf(),
            final(self).text() == old(self).text(),
            final(self).cursor() == word_right_pos(old(self).text(), old(self).cursor()),
    {
        self.insertion_point = word_right_index(self.buffer.as_str(), self.insertion_point);
    }

    /// Empty the buffer and rest the cursor at the start.
    pub fn clear(&mut self)
        ensures
            final(self).wf(),
            final(self).text() == Seq::<char>::empty(),
            final(self).cursor() == 0,
    {
        self.buffer = String::new();
        self.insertion_point = 0;
    }

    /// Replace the whole content, leaving the cursor at the end.
    pub fn set_buffer(&mut self, t: String)
        ensures
            final(self).wf(),
            final(self).text() == t@,
            final(self).cursor() == t@.len(),
    {
        self.insertion_point = t.as_str().unicode_len();
        self.buffer = t;
    }

    /// The current content.
    pub fn get_buffer(&self) -> (r: &str)
        ensures
            r@ == self.text(),
    {
        self.buffer.as_str()
    }

    /// A freshly allocated copy of the current content.
    pub fn buffer_string(&self) -> (r: String)
        ensures
            r@ == self.text(),
    {
        self.buffer.clone()
    }

    /// Place the cursor on a given character boundary.
    pub fn set_insertion_point(&mut self, pos: usize)
        requires
            pos <= old(self).text().len(),
        ensures
            final(self).wf(),
            final(self).text() == old(self).text(),
            final(self).cursor() == pos,
    {
        self.insertion_point = pos;
    }

    /// The cursor offset.
    pub fn insertion_point(&self) -> (r: usize)
        ensures
            r == self.cursor(),
    {
        self.insertion_point
    }

    /// Whether the buffer holds no text.
    pub fn is_empty(&self) -> (r: bool)
        ensures
            r == (self.text().len() == 0),
    {
        self.buffer.as_str().is_empty()
    }

    /// Whether the content ends in a newline.
    pub fn ends_with_newline(&self) -> (r: bool)
        ensures
            r == (self.text().len() > 0 && self.text().last() == '\n'),
    {
        let n = self.buffer.unicode_len();
        n > 0 && self.buffer.as_str().get_char(n - 1) == '\n'
    }

    /// How many logical lines the content holds.
    pub fn num_lines(&self) -> (r: usize)
        ensures
            r == line_count(self.text()),
    {
        crate::text::line_count_of(self.buffer.as_str())
    }
}

} // verus!
