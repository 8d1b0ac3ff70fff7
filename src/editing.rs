use vstd::prelude::*;
use crate::app::{App, VimMode};
use crate::chars::string_of;
use crate::motion::{back_target, back_word, boundaries, end_of_word, end_target, forward_target, forward_word, selection, selection_range, word_boundaries};

verus! {

/// Cursor after `l` / Right: one step right, but never past the end, and in
/// Normal and Visual mode never onto the end position.
pub open spec fn right_target(s: Seq<char>, cursor: int, mode: VimMode) -> int {
    if cursor >= s.len() {
        cursor
    } else if (mode == VimMode::Visual || mode == VimMode::Normal) && cursor >= s.len() - 1 {
        cursor
    } else {
        cursor + 1
    }
}

/// `s` with `t` inserted at `at`.
pub open spec fn spliced(s: Seq<char>, at: int, t: Seq<char>) -> Seq<char> {
    s.subrange(0, at) + t + s.subrange(at, s.len() as int)
}

/// Where the cursor lands after text before it up to `a` was kept and the
/// rest of the deleted range removed: on `a`, pulled back onto the last
/// character when `a` is past it, 0 in an empty text.
pub open spec fn landing(rest: Seq<char>, a: int) -> int {
    if rest.len() == 0 {
        0
    } else if a > rest.len() - 1 {
        a - 1
    } else {
        a
    }
}

/// `diw`: the run under the cursor goes from the compose buffer into the
/// yank register; nothing changes with the cursor at the end.
pub open spec fn inner_word_deleted(o: App, n: App) -> bool {
    let s = o.msg@;
    let c = o.msg.cursor as int;
    let (a, b) = boundaries(s, c);
    let rest = s.subrange(0, a) + s.subrange(b, s.len() as int);
    &&& n == (App { msg: n.msg, yank: n.yank, ..o })
    &&& if c < s.len() {
        &&& n.msg@ == rest
        &&& n.yank@ == s.subrange(a, b)
        &&& n.msg.cursor == landing(rest, a)
    } else {
        n.msg == o.msg && n.yank == o.yank
    }
}

impl App {
    /// Inserts `c` at the compose cursor and moves the cursor past it.
    pub fn insert_msg_char(&mut self, c: char)
        requires
            old(self).wf(),
        ensures
            final(self).wf(),
            *final(self) == (App { msg: final(self).msg, ..*old(self) }),
            old(self).msg@.len() + 1 < usize::MAX ==> final(self).msg@ == old(self).msg@.insert(
                old(self).msg.cursor as int,
                c,
            ) && final(self).msg.cursor == old(self).msg.cursor + 1,
            old(self).msg@.len() + 1 >= usize::MAX ==> final(self).msg == old(self).msg,
    {
        if self.msg.len() + 1 < usize::MAX {
            let at = self.msg.cursor;
            self.msg.insert(at, c);
        }
    }

    /// Backspace in the compose buffer: removes the character before the
    /// cursor.
    pub fn delete_msg_char(&mut self)
        requires
            old(self).wf(),
        ensures
            final(self).wf(),
            *final(self) == (App { msg: final(self).msg, ..*old(self) }),
            old(self).msg.cursor > 0 ==> final(self).msg@ == old(self).msg@.remove(
                old(self).msg.cursor - 1,
            ) && final(self).msg.cursor == old(self).msg.cursor - 1,
            old(self).msg.cursor == 0 ==> final(self).msg == old(self).msg,
    {
        if self.msg.cursor == 0 {
            return;
        }
        let at = self.msg.cursor - 1;
        self.msg.remove(at);
    }

    /// Moves the compose cursor one step left, stopping at 0.
    pub fn move_msg_cursor_left(&mut self)
        requires
            old(self).wf(),
        ensures
            final(self).wf(),
            final(self).msg@ == old(self).msg@,
            final(self).msg.cursor == if old(self).msg.cursor > 0 {
                old(self).msg.cursor - 1
            } else {
                0
            },
            *final(self) == (App { msg: final(self).msg, ..*old(self) }),
    {
        if self.msg.cursor > 0 {
            self.msg.cursor = self.msg.cursor - 1;
        }
    }

    /// Moves the compose cursor one step right (see `right_target`).
    pub fn move_msg_cursor_right(&mut self)
        requires
            old(self).wf(),
        ensures
            final(self).wf(),
            final(self).msg@ == old(self).msg@,
            final(self).msg.cursor == right_target(
                old(self).msg@,
                old(self).msg.cursor as int,
                old(self).vim_mode,
            ),
            *final(self) == (App { msg: final(self).msg, ..*old(self) }),
    {
        let len = self.msg.len();
        if self.msg.cursor >= len {
            return;
        }
        if (self.vim_mode == VimMode::Visual || self.vim_mode == VimMode::Normal) && self.msg.cursor
            >= len - 1 {
            return;
        }
        self.msg.cursor = self.msg.cursor + 1;
    }

    /// Inserts `s` at the compose cursor, leaving the cursor after it; a
    /// text too long for memory is not inserted.
    pub fn insert_msg_str(&mut self, s: &str)
        requires
            old(self).wf(),
        ensures
            final(self).wf(),
            *final(self) == (App { msg: final(self).msg, ..*old(self) }),
            old(self).msg@.len() + s@.len() + 1 < usize::MAX ==> final(self).msg@ == spliced(
                old(self).msg@,
                old(self).msg.cursor as int,
                s@,
            ) && final(self).msg.cursor == old(self).msg.cursor + s@.len(),
            old(self).msg@.len() + s@.len() + 1 >= usize::MAX ==> final(self).msg == old(self).msg,
    {
        let cs = crate::chars::chars_of(s);
        if self.msg.len() >= usize::MAX - 1 || cs.len() >= usize::MAX - 1 - self.msg.len() {
            return;
        }
        let ghost start = self.msg.cursor as int;
        let ghost orig = self.msg@;
        let mut i: usize = 0;
        while i < cs.len()
            invariant
                self.wf(),
                cs@ == s@,
                orig.len() + cs@.len() + 1 < usize::MAX,
                0 <= start <= orig.len(),
                i <= cs@.len(),
                self.msg@ == spliced(orig, start, cs@.subrange(0, i as int)),
                self.msg.cursor == start + i,
                *self == (App { msg: self.msg, ..*old(self) }),
            decreases cs@.len() - i,
        {
            let at = self.msg.cursor;
            self.msg.insert(at, cs[i]);
            proof {
                assert(spliced(orig, start, cs@.subrange(0, i as int)).insert(start + i, cs@[i as int])
                    =~= spliced(orig, start, cs@.subrange(0, i as int + 1)));
            }
            i = i + 1;
        }
        proof {
            assert(cs@.subrange(0, i as int) =~= s@);
        }
    }

    /// Moves the compose cursor to the start.
    pub fn move_msg_cursor_to_start(&mut self)
        requires
            old(self).wf(),
        ensures
            final(self).wf(),
            final(self).msg@ == old(self).msg@,
            final(self).msg.cursor == 0,
            *final(self) == (App { msg: final(self).msg, ..*old(self) }),
    {
        self.msg.cursor = 0;
    }

    /// Moves the compose cursor to the end.
    pub fn move_msg_cursor_to_end(&mut self)
        requires
            old(self).wf(),
        ensures
            final(self).wf(),
            final(self).msg@ == old(self).msg@,
            final(self).msg.cursor == old(self).msg@.len(),
            *final(self) == (App { msg: final(self).msg, ..*old(self) }),
    {
        self.msg.cursor = self.msg.len();
    }

    /// Removes the characters from the cursor up to `x` (both held inside
    /// the text) and returns them; the cursor stays.
    pub fn take_msg_from_cursor_to_x(&mut self, x: usize) -> (r: String)
        requires
            old(self).wf(),
        ensures
            final(self).wf(),
            *final(self) == (App { msg: final(self).msg, ..*old(self) }),
            final(self).msg.cursor == old(self).msg.cursor,
            ({
                let s = old(self).msg@;
                let a = old(self).msg.cursor as int;
                let b = if x < s.len() {
                    x as int
                } else {
                    s.len() as int
                };
                if a < b {
                    r@ == s.subrange(a, b) && final(self).msg@ == s.subrange(0, a) + s.subrange(
                        b,
                        s.len() as int,
                    )
                } else {
                    r@.len() == 0 && final(self).msg@ == s
                }
            }),
    {
        let len = self.msg.len();
        let start = self.msg.cursor;
        let end = if x < len {
            x
        } else {
            len
        };
        if start >= end {
            return String::new();
        }
        let ghost s = self.msg@;
        let mut out: Vec<char> = Vec::new();
        let mut k: usize = start;
        while k < end
            invariant
                self.wf(),
                start <= k <= end <= s.len(),
                self.msg.cursor == start,
                out@ == s.subrange(start as int, k as int),
                self.msg@ == s.subrange(0, start as int) + s.subrange(k as int, s.len() as int),
                *self == (App { msg: self.msg, ..*old(self) }),
            decreases end - k,
        {
            proof {
                assert(self.msg@[start as int] == s[k as int]);
            }
            let c = self.msg.remove(start);
            out.push(c);
            proof {
                assert(self.msg@ =~= s.subrange(0, start as int) + s.subrange(
                    k as int + 1,
                    s.len() as int,
                ));
                assert(out@ =~= s.subrange(start as int, k as int + 1));
            }
            k = k + 1;
        }
        string_of(&out)
    }

    /// The characters of the compose buffer, in order.
    pub fn get_msg_iter(&self) -> (r: Vec<char>)
        requires
            self.wf(),
        ensures
            r@ == self.msg@,
    {
        let v = self.msg.slice(0, self.msg.len());
        proof {
            assert(self.msg@.subrange(0, self.msg@.len() as int) =~= self.msg@);
        }
        v
    }

    /// Where the compose cursor is.
    pub fn msg_cursor_position(&self) -> (r: usize)
        ensures
            r == self.msg.cursor,
    {
        self.msg.cursor
    }

    /// Empties the compose buffer.
    pub fn clear_msg(&mut self)
        requires
            old(self).wf(),
        ensures
            final(self).wf(),
            final(self).msg@.len() == 0,
            final(self).msg.cursor == 0,
            *final(self) == (App { msg: final(self).msg, ..*old(self) }),
    {
        self.msg.clear();
    }

    /// Submits the compose buffer: returns its text and leaves it empty with
    /// the cursor at 0, in one step.
    pub fn take_msg_text(&mut self) -> (r: String)
        requires
            old(self).wf(),
        ensures
            final(self).wf(),
            r@ == old(self).msg@,
            final(self).msg@.len() == 0,
            final(self).msg.cursor == 0,
            *final(self) == (App { msg: final(self).msg, ..*old(self) }),
    {
        self.msg.drain_all()
    }

    /// `b`: back to the start of the previous word.
    pub fn move_msg_cursor_back_word(&mut self)
        requires
            old(self).wf(),
        ensures
            final(self).wf(),
            final(self).msg@ == old(self).msg@,
            final(self).msg.cursor == back_target(old(self).msg@, old(self).msg.cursor as int, false),
            *final(self) == (App { msg: final(self).msg, ..*old(self) }),
    {
        self.msg.cursor = back_word(&self.msg, self.msg.cursor, false);
    }

    /// `B`: back to the start of the previous WORD.
    pub fn move_msg_cursor_back_word_uppercase(&mut self)
        requires
            old(self).wf(),
        ensures
            final(self).wf(),
            final(self).msg@ == old(self).msg@,
            final(self).msg.cursor == back_target(old(self).msg@, old(self).msg.cursor as int, true),
            *final(self) == (App { msg: final(self).msg, ..*old(self) }),
    {
        self.msg.cursor = back_word(&self.msg, self.msg.cursor, true);
    }

    /// `w`: forward to the start of the next word.
    pub fn move_msg_cursor_forward_word(&mut self)
        requires
            old(self).wf(),
        ensures
            final(self).wf(),
            final(self).msg@ == old(self).msg@,
            final(self).msg.cursor == forward_target(
                old(self).msg@,
                old(self).msg.cursor as int,
                false,
            ),
            *final(self) == (App { msg: final(self).msg, ..*old(self) }),
    {
        self.msg.cursor = forward_word(&self.msg, self.msg.cursor, false);
    }

    /// `W`: forward to the start of the next WORD.
    pub fn move_msg_cursor_forward_word_uppercase(&mut self)
        requires
            old(self).wf(),
        ensures
            final(self).wf(),
            final(self).msg@ == old(self).msg@,
            final(self).msg.cursor == forward_target(old(self).msg@, old(self).msg.cursor as int, true),
            *final(self) == (App { msg: final(self).msg, ..*old(self) }),
    {
        self.msg.cursor = forward_word(&self.msg, self.msg.cursor, true);
    }

    /// `e`: to the last character of the word.
    pub fn move_msg_cursor_end_of_word(&mut self)
        requires
            old(self).wf(),
        ensures
            final(self).wf(),
            final(self).msg@ == old(self).msg@,
            final(self).msg.cursor == end_target(old(self).msg@, old(self).msg.cursor as int, false),
            *final(self) == (App { msg: final(self).msg, ..*old(self) }),
    {
        self.msg.cursor = end_of_word(&self.msg, self.msg.cursor, false);
    }

    /// `E`: to the last character of the WORD.
    pub fn move_msg_cursor_end_of_word_uppercase(&mut self)
        requires
            old(self).wf(),
        ensures
            final(self).wf(),
            final(self).msg@ == old(self).msg@,
            final(self).msg.cursor == end_target(old(self).msg@, old(self).msg.cursor as int, true),
            *final(self) == (App { msg: final(self).msg, ..*old(self) }),
    {
        self.msg.cursor = end_of_word(&self.msg, self.msg.cursor, true);
    }

    /// `(start, end)` of the word run or non-word run at `cursor`.
    pub fn find_word_boundaries(&self, cursor: usize) -> (r: (usize, usize))
        requires
            cursor <= self.msg@.len(),
        ensures
            r.0 == boundaries(self.msg@, cursor as int).0,
            r.1 == boundaries(self.msg@, cursor as int).1,
    {
        word_boundaries(&self.msg, cursor)
    }

    /// `diw`: deletes the run under the cursor into the yank register; the
    /// cursor lands on the run's start, or on the last character when the
    /// run was at the end. Nothing happens with the cursor at the end.
    pub fn delete_inner_word_msg(&mut self)
        requires
            old(self).wf(),
        ensures
            final(self).wf(),
            inner_word_deleted(*old(self), *final(self)),
    {
        let len = self.msg.len();
        let cursor = self.msg.cursor;
        if len == 0 || cursor >= len {
            return;
        }
        let (start, end) = word_boundaries(&self.msg, cursor);
        self.msg.cursor = start;
        let text = self.take_msg_from_cursor_to_x(end);
        self.set_yank(text);
        proof {
            let (a, b) = boundaries(old(self).msg@, cursor as int);
            assert(a < b);
        }
        let n = self.msg.len();
        if n > 0 && self.msg.cursor > n - 1 {
            self.move_msg_cursor_left();
        }
    }

    /// The selected range `(min, max + 1)` of anchor and cursor, in Visual
    /// mode with an anchor.
    pub fn msg_selection_range(&self) -> (r: Option<(usize, usize)>)
        requires
            self.wf(),
        ensures
            self.vim_mode != VimMode::Visual ==> r is None,
            self.vim_mode == VimMode::Visual ==> match self.sel_start {
                None => r is None,
                Some(a) => r matches Some(p) && p.0 == selection(a as int, self.msg.cursor as int).0
                    && p.1 == selection(a as int, self.msg.cursor as int).1,
            },
    {
        if self.vim_mode != VimMode::Visual {
            return None;
        }
        match self.sel_start {
            Some(a) => Some(selection_range(a, self.msg.cursor)),
            None => None,
        }
    }
}

} // verus!
