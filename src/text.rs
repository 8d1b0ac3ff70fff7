use vstd::prelude::*;
use gapbuf::GapBuffer;

verus! {

/// A gap buffer of characters, kept opaque; what it holds is `gap_contents`.
#[verifier::external_body]
pub struct CharGap {
    inner: GapBuffer<char>,
}

/// The characters held by a gap buffer, in order.
pub uninterp spec fn gap_contents(b: CharGap) -> Seq<char>;

/// Relies on `GapBuffer::new`: a new buffer is empty.
#[verifier::external_body]
fn gap_new() -> (r: CharGap)
    ensures
        gap_contents(r) == Seq::<char>::empty(),
{
    CharGap { inner: GapBuffer::new() }
}

/// Relies on `Slice::len` (through `Deref`): the number of elements.
#[verifier::external_body]
fn gap_len(b: &CharGap) -> (r: usize)
    ensures
        r == gap_contents(*b).len(),
{
    b.inner.len()
}

/// Relies on `Index<usize>` of `Slice`: the element at `i`, for `i < len`.
#[verifier::external_body]
fn gap_get(b: &CharGap, i: usize) -> (r: char)
    requires
        i < gap_contents(*b).len(),
    ensures
        r == gap_contents(*b)[i as int],
{
    b.inner[i]
}

/// Relies on `GapBuffer::insert`: puts `c` at `i` and shifts the rest right;
/// it panics when `i > len` or when the length would overflow.
#[verifier::external_body]
fn gap_insert(b: &mut CharGap, i: usize, c: char)
    requires
        i <= gap_contents(*old(b)).len(),
        gap_contents(*old(b)).len() < usize::MAX,
    ensures
        gap_contents(*final(b)) == gap_contents(*old(b)).insert(i as int, c),
{
    b.inner.insert(i, c)
}

/// Relies on `GapBuffer::remove`: takes out the element at `i` (`i < len`).
#[verifier::external_body]
fn gap_remove(b: &mut CharGap, i: usize) -> (r: char)
    requires
        i < gap_contents(*old(b)).len(),
    ensures
        r == gap_contents(*old(b))[i as int],
        gap_contents(*final(b)) == gap_contents(*old(b)).remove(i as int),
{
    b.inner.remove(i)
}

/// Relies on `GapBuffer::clear`: removes every element.
#[verifier::external_body]
fn gap_clear(b: &mut CharGap)
    ensures
        gap_contents(*final(b)) == Seq::<char>::empty(),
{
    b.inner.clear()
}

/// Relies on `GapBuffer::drain(..)`: hands out every element in order and
/// leaves the buffer empty.
#[verifier::external_body]
fn gap_drain_all(b: &mut CharGap) -> (r: String)
    ensures
        r@ == gap_contents(*old(b)),
        gap_contents(*final(b)) == Seq::<char>::empty(),
{
    b.inner.drain(..).collect()
}

/// One positional edit of an `EditableText`.
pub enum Edit {
    Insert(nat, char),
    Remove(nat),
}

/// Whether an edit addresses a valid position of `s`.
pub open spec fn edit_valid(s: Seq<char>, e: Edit) -> bool {
    match e {
        Edit::Insert(p, _) => p <= s.len(),
        Edit::Remove(p) => p < s.len(),
    }
}

/// The text after an edit.
pub open spec fn edited_text(s: Seq<char>, e: Edit) -> Seq<char> {
    match e {
        Edit::Insert(p, c) => s.insert(p as int, c),
        Edit::Remove(p) => s.remove(p as int),
    }
}

/// The cursor after an edit: it shifts right over an insertion at or
/// before it and left over a removal before it.
pub open spec fn edited_cursor(cursor: int, e: Edit) -> int {
    match e {
        Edit::Insert(p, _) => if p <= cursor {
            cursor + 1
        } else {
            cursor
        },
        Edit::Remove(p) => if p < cursor {
            cursor - 1
        } else {
            cursor
        },
    }
}

/// Text and cursor after a sequence of edits.
pub open spec fn replay(s: Seq<char>, cursor: int, edits: Seq<Edit>) -> (Seq<char>, int)
    decreases edits.len(),
{
    if edits.len() == 0 {
        (s, cursor)
    } else {
        let (t, c) = replay(s, cursor, edits.drop_last());
        (edited_text(t, edits.last()), edited_cursor(c, edits.last()))
    }
}

/// Whether every edit of the sequence addresses a valid position of the
/// text it meets.
pub open spec fn replay_valid(s: Seq<char>, cursor: int, edits: Seq<Edit>) -> bool
    decreases edits.len(),
{
    if edits.len() == 0 {
        true
    } else {
        replay_valid(s, cursor, edits.drop_last()) && edit_valid(
            replay(s, cursor, edits.drop_last()).0,
            edits.last(),
        )
    }
}

/// Under any sequence of valid insertions and removals the cursor stays
/// within `[0, length]`; what remains (what `drain_all` hands out) is the
/// text with exactly those edits applied, in order.
pub proof fn lemma_edits_keep_cursor(s: Seq<char>, cursor: int, edits: Seq<Edit>)
    requires
        0 <= cursor <= s.len(),
        replay_valid(s, cursor, edits),
    ensures
        0 <= replay(s, cursor, edits).1 <= replay(s, cursor, edits).0.len(),
    decreases edits.len(),
{
    if edits.len() > 0 {
        lemma_edits_keep_cursor(s, cursor, edits.drop_last());
    }
}

/// A cursor-addressable character sequence backed by a gap buffer.
/// The cursor is an offset in `[0, len]`.
pub struct EditableText {
    pub buf: CharGap,
    pub cursor: usize,
}

impl View for EditableText {
    type V = Seq<char>;

    open spec fn view(&self) -> Seq<char> {
        gap_contents(self.buf)
    }
}

impl EditableText {
    pub open spec fn wf(&self) -> bool {
        self.cursor <= self@.len()
    }

    /// An empty text with the cursor at 0.
    pub fn new() -> (r: EditableText)
        ensures
            r@ == Seq::<char>::empty(),
            r.cursor == 0,
            r.wf(),
    {
        EditableText { buf: gap_new(), cursor: 0 }
    }

    pub fn len(&self) -> (r: usize)
        ensures
            r == self@.len(),
    {
        gap_len(&self.buf)
    }

    pub fn is_empty(&self) -> (r: bool)
        ensures
            r == (self@.len() == 0),
    {
        gap_len(&self.buf) == 0
    }

    /// The character at `i`.
    pub fn get(&self, i: usize) -> (r: char)
        requires
            i < self@.len(),
        ensures
            r == self@[i as int],
    {
        gap_get(&self.buf, i)
    }

    /// Inserts `c` at `pos`; the cursor moves forward by one when the
    /// insertion is at or before it.
    pub fn insert(&mut self, pos: usize, c: char)
        requires
            old(self).wf(),
            pos <= old(self)@.len(),
            old(self)@.len() < usize::MAX,
        ensures
            final(self).wf(),
            final(self)@ == edited_text(old(self)@, Edit::Insert(pos as nat, c)),
            final(self).cursor == edited_cursor(old(self).cursor as int, Edit::Insert(pos as nat, c)),
    {
        gap_insert(&mut self.buf, pos, c);
        if pos <= self.cursor {
            self.cursor = self.cursor + 1;
        }
    }

    /// Removes and returns the character at `pos`; a cursor past `pos` moves
    /// back by one.
    pub fn remove(&mut self, pos: usize) -> (r: char)
        requires
            old(self).wf(),
            pos < old(self)@.len(),
        ensures
            final(self).wf(),
            r == old(self)@[pos as int],
            final(self)@ == edited_text(old(self)@, Edit::Remove(pos as nat)),
            final(self).cursor == edited_cursor(old(self).cursor as int, Edit::Remove(pos as nat)),
    {
        let c = gap_remove(&mut self.buf, pos);
        if pos < self.cursor {
            self.cursor = self.cursor - 1;
        }
        c
    }

    /// Empties the text and puts the cursor at 0.
    pub fn clear(&mut self)
        ensures
            final(self).wf(),
            final(self)@ == Seq::<char>::empty(),
            final(self).cursor == 0,
    {
        gap_clear(&mut self.buf);
        self.cursor = 0;
    }

    /// Removes and returns the whole content; the cursor goes back to 0.
    pub fn drain_all(&mut self) -> (r: String)
        ensures
            final(self).wf(),
            r@ == old(self)@,
            final(self)@ == Seq::<char>::empty(),
            final(self).cursor == 0,
    {
        self.cursor = 0;
        gap_drain_all(&mut self.buf)
    }

    /// The characters in `[start, end)`.
    pub fn slice(&self, start: usize, end: usize) -> (r: Vec<char>)
        requires
            start <= end <= self@.len(),
        ensures
            r@ == self@.subrange(start as int, end as int),
    {
        let mut out: Vec<char> = Vec::new();
        let mut i: usize = start;
        while i < end
            invariant
                start <= i <= end <= self@.len(),
                out@ == self@.subrange(start as int, i as int),
            decreases end - i,
        {
            out.push(self.get(i));
            i = i + 1;
        }
        out
    }
}

} // verus!
