//! The single-line edit buffer behind each form field: editable text, a
//! cursor clamped to `[0, length]`, and a horizontal window computation so an
//! arbitrarily long line can be edited inside a fixed-width field.

use vstd::prelude::*;
use vstd::string::StrSliceExecFns;

verus! {

/// Relies on `String`'s `FromIterator<&char>` impl: collecting an iterator of
/// characters yields the string holding exactly those characters in order.
#[verifier::external_body]
fn string_of(chars: &Vec<char>) -> (r: String)
    ensures
        r@ == chars@,
{
    chars.iter().collect()
}

/// One form field's state: the text as a sequence of characters and the
/// cursor position within it.
pub struct EditBuffer {
    chars: Vec<char>,
    cursor: usize,
}

impl EditBuffer {
    /// The text being edited.
    pub closed spec fn text(self) -> Seq<char> {
        self.chars@
    }

    /// The cursor position: a character index in `[0, text length]`.
    pub closed spec fn caret(self) -> nat {
        self.cursor as nat
    }

    /// The cursor never leaves the text: `0 <= caret <= len`.
    pub closed spec fn wf(self) -> bool {
        self.cursor <= self.chars@.len()
    }

    /// A fresh, empty buffer with the cursor at the start.
    pub fn new() -> (r: EditBuffer)
        ensures
            r.wf(),
            r.text().len() == 0,
            r.caret() == 0,
    {
        EditBuffer { chars: Vec::new(), cursor: 0 }
    }

    /// Clear the buffer: empty text, cursor at the start.
    pub fn reset(&mut self)
        ensures
            final(self).wf(),
            final(self).text().len() == 0,
            final(self).caret() == 0,
    {
        self.chars = Vec::new();
        self.cursor = 0;
    }

    /// Replace the whole text and put the cursor at its end.
    pub fn set_text(&mut self, s: &str)
        ensures
            final(self).wf(),
            final(self).text() == s@,
            final(self).caret() == s@.len(),
    {
        self.chars = chars_from_str(s);
        self.cursor = self.chars.len();
    }

    /// The text as a `String`.
    pub fn value(&self) -> (r: String)
        ensures
            r@ == self.text(),
    {
        string_of(&self.chars)
    }

    /// The cursor position as an index.
    pub fn cursor_index(&self) -> (r: usize)
        ensures
            r == self.caret(),
    {
        self.cursor
    }

    /// Insert a character at the cursor; the cursor ends up just after it.
    pub fn insert_char(&mut self, c: char)
        requires
            old(self).wf(),
        ensures
            final(self).wf(),
            final(self).text() == old(self).text().insert(old(self).caret() as int, c),
            final(self).caret() == old(self).caret() + 1,
    {
        self.chars.insert(self.cursor, c);
        let n = self.chars.len();
        assert(self.cursor < n);
        self.cursor = self.cursor + 1;
    }

    /// Delete the character just before the cursor, moving the cursor back by
    /// one; a no-op with the cursor at the start.
    pub fn delete_backward(&mut self)
        requires
            old(self).wf(),
        ensures
            final(self).wf(),
            old(self).caret() == 0 ==> *final(self) == *old(self),
            old(self).caret() > 0 ==> final(self).text() == old(self).text().remove(
                old(self).caret() - 1,
            ) && final(self).caret() == old(self).caret() - 1,
    {
        if self.cursor > 0 {
            self.chars.remove(self.cursor - 1);
            self.cursor = self.cursor - 1;
        }
    }

    /// Move the cursor one character to the left, stopping at the start.
    pub fn move_left(&mut self)
        requires
            old(self).wf(),
        ensures
            final(self).wf(),
            final(self).text() == old(self).text(),
            final(self).caret() == if old(self).caret() == 0 {
                0
            } else {
                (old(self).caret() - 1) as nat
            },
    {
        if self.cursor > 0 {
            self.cursor = self.cursor - 1;
        }
    }

    /// Move the cursor one character to the right, stopping at the end.
    pub fn move_right(&mut self)
        requires
            old(self).wf(),
        ensures
            final(self).wf(),
            final(self).text() == old(self).text(),
            final(self).caret() == if old(self).caret() == old(self).text().len() {
                old(self).caret()
            } else {
                old(self).caret() + 1
            },
    {
        if self.cursor < self.chars.len() {
            self.cursor = self.cursor + 1;
        }
    }

    /// The horizontal window of a field `width` characters wide: the minimal
    /// scroll offset that keeps the cursor inside the window, and the visible
    /// slice of the text from that offset.  The window never reaches past the
    /// end of the text, and the cursor cell always lies within it.
    pub fn visible_window(&self, width: usize) -> (r: (usize, Vec<char>))
        requires
            self.wf(),
            width >= 1,
        ensures
            r.0 == if self.caret() < width {
                0
            } else {
                self.caret() + 1 - width
            },
            r.0 <= self.caret() < r.0 + width,
            r.0 <= self.text().len(),
            r.0 == 0 || self.caret() == r.0 + width - 1,
            r.1@ == self.text().subrange(
                r.0 as int,
                if r.0 + width <= self.text().len() {
                    r.0 + width
                } else {
                    self.text().len() as int
                },
            ),
    {
        let scroll: usize = if self.cursor < width {
            0
        } else {
            self.cursor - width + 1
        };
        let len = self.chars.len();
        let end: usize = if len - scroll > width {
            scroll + width
        } else {
            len
        };
        let mut out: Vec<char> = Vec::new();
        let mut k: usize = scroll;
        while k < end
            invariant
                scroll <= k <= end <= self.chars@.len(),
                out@ == self.chars@.subrange(scroll as int, k as int),
            decreases end - k,
        {
            out.push(self.chars[k]);
            k = k + 1;
            proof {
                assert(self.chars@.subrange(scroll as int, k as int) =~= self.chars@.subrange(
                    scroll as int,
                    k - 1,
                ).push(self.chars@[k - 1]));
            }
        }
        (scroll, out)
    }
}

/// A well-formed buffer's cursor never passes the end of its text.
pub proof fn lemma_caret_in_text(b: EditBuffer)
    requires
        b.wf(),
    ensures
        b.caret() <= b.text().len(),
{
}

/// The characters of a string, in order, as a vector.
fn chars_from_str(s: &str) -> (r: Vec<char>)
    ensures
        r@ == s@,
{
    let n = s.unicode_len();
    let mut out: Vec<char> = Vec::new();
    let mut k: usize = 0;
    while k < n
        invariant
            n == s@.len(),
            k <= n,
            out@ == s@.subrange(0, k as int),
        decreases n - k,
    {
        out.push(s.get_char(k));
        k = k + 1;
        proof {
            assert(s@.subrange(0, k as int) =~= s@.subrange(0, k - 1).push(s@[k - 1]));
        }
    }
    proof {
        assert(out@ =~= s@);
    }
    out
}

} // verus!
