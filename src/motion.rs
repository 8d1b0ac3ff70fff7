use vstd::prelude::*;
use crate::chars::{is_whitespace, is_word_char, whitespace, word_char};
use crate::text::EditableText;

verus! {

/// A character class that a motion walks over.
#[derive(Clone, Copy, PartialEq, Eq, Structural)]
pub enum Class {
    /// alphanumeric or underscore
    Word,
    /// anything but a word character
    NonWord,
    /// any non-whitespace character (a WORD)
    Big,
    /// whitespace
    Space,
}

pub open spec fn in_class(c: char, k: Class) -> bool {
    match k {
        Class::Word => word_char(c),
        Class::NonWord => !word_char(c),
        Class::Big => !whitespace(c),
        Class::Space => whitespace(c),
    }
}

/// The class that a word motion walks: WORD when `big`, else word.
pub open spec fn word_class(big: bool) -> Class {
    if big {
        Class::Big
    } else {
        Class::Word
    }
}

/// Start of the run of class `k` that ends just before `pos`.
pub open spec fn run_left(s: Seq<char>, pos: int, k: Class) -> int
    decreases pos,
{
    if 0 < pos <= s.len() && in_class(s[pos - 1], k) {
        run_left(s, pos - 1, k)
    } else {
        pos
    }
}

/// End (exclusive) of the run of class `k` that starts at `pos`.
pub open spec fn run_right(s: Seq<char>, pos: int, k: Class) -> int
    decreases s.len() - pos,
{
    if 0 <= pos < s.len() && in_class(s[pos], k) {
        run_right(s, pos + 1, k)
    } else {
        pos
    }
}

/// `b` / `B`: skip whitespace leftward, then the word (or WORD) leftward.
pub open spec fn back_target(s: Seq<char>, cursor: int, big: bool) -> int {
    run_left(s, run_left(s, cursor, Class::Space), word_class(big))
}

/// `w` / `W`: skip the current word (or WORD), then whitespace, rightward.
pub open spec fn forward_target(s: Seq<char>, cursor: int, big: bool) -> int {
    if cursor >= s.len() {
        cursor
    } else {
        run_right(s, run_right(s, cursor, word_class(big)), Class::Space)
    }
}

/// Whether position `r` holds the last character of a run of class `k`.
pub open spec fn is_run_end(s: Seq<char>, r: int, k: Class) -> bool {
    0 <= r < s.len() && in_class(s[r], k) && (r + 1 == s.len() || !in_class(s[r + 1], k))
}

/// The first end of a run of class `k` at or after position `i`, if any.
pub open spec fn next_end_from(s: Seq<char>, i: int, k: Class) -> Option<int>
    decreases s.len() - i,
{
    if i < 0 || i >= s.len() {
        None
    } else if is_run_end(s, i, k) {
        Some(i)
    } else {
        next_end_from(s, i + 1, k)
    }
}

/// `e` / `E`: the least position after the cursor that ends a word (or
/// WORD): the end of the current word, or of the next one when the cursor
/// is already on an end, on whitespace or on punctuation; the cursor stays
/// when no word ends after it.
pub open spec fn end_target(s: Seq<char>, cursor: int, big: bool) -> int {
    match next_end_from(s, cursor + 1, word_class(big)) {
        Some(r) => r,
        None => cursor,
    }
}

pub proof fn lemma_next_end_from(s: Seq<char>, i: int, k: Class)
    requires
        0 <= i,
    ensures
        next_end_from(s, i, k) matches Some(r) ==> i <= r < s.len() && is_run_end(s, r, k) && forall|
            q: int,
        | i <= q < r ==> !#[trigger] is_run_end(s, q, k),
        next_end_from(s, i, k) is None ==> forall|q: int| i <= q ==> !#[trigger] is_run_end(s, q, k),
    decreases s.len() - i,
{
    if i < s.len() && !is_run_end(s, i, k) {
        lemma_next_end_from(s, i + 1, k);
    }
}

/// The end motion lands on the least word (or WORD) end after the cursor,
/// and stays only when there is none.
pub proof fn lemma_end_target_least(s: Seq<char>, cursor: int, big: bool)
    requires
        0 <= cursor <= s.len(),
    ensures
        end_target(s, cursor, big) > cursor ==> is_run_end(s, end_target(s, cursor, big), word_class(big))
            && forall|q: int|
            cursor < q < end_target(s, cursor, big) ==> !#[trigger] is_run_end(s, q, word_class(big)),
        end_target(s, cursor, big) == cursor ==> forall|q: int|
            cursor < q ==> !#[trigger] is_run_end(s, q, word_class(big)),
        cursor <= end_target(s, cursor, big),
        cursor < s.len() ==> end_target(s, cursor, big) < s.len(),
{
    lemma_next_end_from(s, cursor + 1, word_class(big));
}

/// The class of the run that holds position `cursor` (`cursor < len`).
pub open spec fn run_class_at(s: Seq<char>, cursor: int) -> Class {
    if word_char(s[cursor]) {
        Class::Word
    } else {
        Class::NonWord
    }
}

/// `(start, end)` of the word run or non-word run that holds `cursor`;
/// `(cursor, cursor)` when no character stands at `cursor`.
pub open spec fn boundaries(s: Seq<char>, cursor: int) -> (int, int) {
    if 0 <= cursor < s.len() {
        let k = run_class_at(s, cursor);
        let start = run_left(s, cursor, k);
        (start, run_right(s, start, k))
    } else {
        (cursor, cursor)
    }
}

/// The half-open range between an anchor and a cursor, both included.
pub open spec fn selection(anchor: int, cursor: int) -> (int, int) {
    if cursor >= anchor {
        (anchor, cursor + 1)
    } else {
        (cursor, anchor + 1)
    }
}

pub proof fn lemma_run_left(s: Seq<char>, pos: int, k: Class)
    requires
        0 <= pos <= s.len(),
    ensures
        0 <= run_left(s, pos, k) <= pos,
        forall|i: int| run_left(s, pos, k) <= i < pos ==> in_class(#[trigger] s[i], k),
        run_left(s, pos, k) == 0 || !in_class(s[run_left(s, pos, k) - 1], k),
    decreases pos,
{
    if 0 < pos && in_class(s[pos - 1], k) {
        lemma_run_left(s, pos - 1, k);
    }
}

pub proof fn lemma_run_right(s: Seq<char>, pos: int, k: Class)
    requires
        0 <= pos <= s.len(),
    ensures
        pos <= run_right(s, pos, k) <= s.len(),
        forall|i: int| pos <= i < run_right(s, pos, k) ==> in_class(#[trigger] s[i], k),
        run_right(s, pos, k) == s.len() || !in_class(s[run_right(s, pos, k)], k),
    decreases s.len() - pos,
{
    if pos < s.len() && in_class(s[pos], k) {
        lemma_run_right(s, pos + 1, k);
    }
}

/// A run found from a start is found again from that start.
pub proof fn lemma_run_left_fixed(s: Seq<char>, pos: int, k: Class)
    requires
        0 <= pos <= s.len(),
    ensures
        run_left(s, run_left(s, pos, k), k) == run_left(s, pos, k),
{
    lemma_run_left(s, pos, k);
}

/// Word boundaries are idempotent: asked again at the start they return,
/// they return the same range.
pub proof fn lemma_boundaries_idempotent(s: Seq<char>, cursor: int)
    requires
        0 <= cursor <= s.len(),
    ensures
        boundaries(s, boundaries(s, cursor).0) == boundaries(s, cursor),
{
    if cursor < s.len() {
        let k = run_class_at(s, cursor);
        lemma_run_left(s, cursor, k);
        let start = run_left(s, cursor, k);
        assert(in_class(s[start], k));
        assert(run_class_at(s, start) == k);
        lemma_run_left_fixed(s, cursor, k);
    }
}

fn char_in(c: char, k: Class) -> (r: bool)
    ensures
        r == in_class(c, k),
{
    match k {
        Class::Word => is_word_char(c),
        Class::NonWord => !is_word_char(c),
        Class::Big => !is_whitespace(c),
        Class::Space => is_whitespace(c),
    }
}

fn walk_left(t: &EditableText, pos: usize, k: Class) -> (r: usize)
    requires
        pos <= t@.len(),
    ensures
        r == run_left(t@, pos as int, k),
{
    let mut p = pos;
    while p > 0 && char_in(t.get(p - 1), k)
        invariant
            p <= pos <= t@.len(),
            run_left(t@, p as int, k) == run_left(t@, pos as int, k),
        decreases p,
    {
        p = p - 1;
    }
    p
}

fn walk_right(t: &EditableText, pos: usize, k: Class) -> (r: usize)
    requires
        pos <= t@.len(),
    ensures
        r == run_right(t@, pos as int, k),
{
    let len = t.len();
    let mut p = pos;
    while p < len && char_in(t.get(p), k)
        invariant
            len == t@.len(),
            pos <= p <= len,
            run_right(t@, p as int, k) == run_right(t@, pos as int, k),
        decreases len - p,
    {
        p = p + 1;
    }
    p
}

/// Where `b` (or `B` when `big`) takes a cursor.
pub fn back_word(t: &EditableText, cursor: usize, big: bool) -> (r: usize)
    requires
        cursor <= t@.len(),
    ensures
        r == back_target(t@, cursor as int, big),
        r <= cursor,
{
    proof {
        lemma_run_left(t@, cursor as int, Class::Space);
        lemma_run_left(t@, run_left(t@, cursor as int, Class::Space), word_class(big));
    }
    let k = if big { Class::Big } else { Class::Word };
    let p = walk_left(t, cursor, Class::Space);
    walk_left(t, p, k)
}

/// Where `w` (or `W` when `big`) takes a cursor.
pub fn forward_word(t: &EditableText, cursor: usize, big: bool) -> (r: usize)
    requires
        cursor <= t@.len(),
    ensures
        r == forward_target(t@, cursor as int, big),
        cursor <= r <= t@.len(),
{
    let len = t.len();
    if cursor >= len {
        return cursor;
    }
    let k = if big { Class::Big } else { Class::Word };
    proof {
        lemma_run_right(t@, cursor as int, k);
        lemma_run_right(t@, run_right(t@, cursor as int, k), Class::Space);
    }
    let p = walk_right(t, cursor, k);
    walk_right(t, p, Class::Space)
}

/// Where `e` (or `E` when `big`) takes a cursor.
pub fn end_of_word(t: &EditableText, cursor: usize, big: bool) -> (r: usize)
    requires
        cursor <= t@.len(),
    ensures
        r == end_target(t@, cursor as int, big),
        cursor < t@.len() ==> cursor <= r < t@.len(),
        cursor == t@.len() ==> r == cursor,
{
    proof {
        lemma_end_target_least(t@, cursor as int, big);
    }
    let len = t.len();
    if cursor >= len {
        return cursor;
    }
    let k = if big { Class::Big } else { Class::Word };
    let mut r = cursor + 1;
    while r < len
        invariant
            len == t@.len(),
            cursor < r <= len,
            k == word_class(big),
            next_end_from(t@, cursor + 1, k) == next_end_from(t@, r as int, k),
        decreases len - r,
    {
        let ends = char_in(t.get(r), k) && (r + 1 == len || !char_in(t.get(r + 1), k));
        if ends {
            return r;
        }
        r = r + 1;
    }
    cursor
}

/// `(start, end)` of the word run or non-word run that holds `cursor`;
/// `(0, 0)` on an empty text.
pub fn word_boundaries(t: &EditableText, cursor: usize) -> (r: (usize, usize))
    requires
        cursor <= t@.len(),
    ensures
        r.0 == boundaries(t@, cursor as int).0,
        r.1 == boundaries(t@, cursor as int).1,
        r.0 <= r.1 <= t@.len(),
        t@.len() == 0 ==> r == (0usize, 0usize),
        cursor < t@.len() ==> r.0 <= cursor < r.1,
{
    let len = t.len();
    if cursor >= len {
        return (cursor, cursor);
    }
    let k = if is_word_char(t.get(cursor)) { Class::Word } else { Class::NonWord };
    proof {
        lemma_run_left(t@, cursor as int, k);
        lemma_run_right(t@, run_left(t@, cursor as int, k), k);
        let st = run_left(t@, cursor as int, k);
        if run_right(t@, st, k) <= cursor {
            assert(in_class(t@[run_right(t@, st, k)], k));
        }
    }
    let start = walk_left(t, cursor, k);
    let end = walk_right(t, start, k);
    (start, end)
}

/// The selected half-open range: `(min, max + 1)` of anchor and cursor.
pub fn selection_range(anchor: usize, cursor: usize) -> (r: (usize, usize))
    requires
        anchor < usize::MAX,
        cursor < usize::MAX,
    ensures
        r.0 == selection(anchor as int, cursor as int).0,
        r.1 == selection(anchor as int, cursor as int).1,
{
    if cursor >= anchor {
        (anchor, cursor + 1)
    } else {
        (cursor, anchor + 1)
    }
}

} // verus!
