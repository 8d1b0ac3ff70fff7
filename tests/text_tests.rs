use duckirc::chars::is_whitespace;
use duckirc::motion::{back_word, end_of_word, forward_word, selection_range, word_boundaries};
use duckirc::text::EditableText;

fn text_of(s: &str) -> EditableText {
    let mut t = EditableText::new();
    for c in s.chars() {
        let at = t.len();
        t.insert(at, c);
    }
    t
}

#[test]
fn insert_remove_drain_keeps_order_and_cursor() {
    let mut t = EditableText::new();
    t.insert(0, 'a');
    t.insert(1, 'c');
    t.insert(1, 'b');
    assert_eq!(t.cursor, 3);
    assert!(t.cursor <= t.len());
    let removed = t.remove(0);
    assert_eq!(removed, 'a');
    assert_eq!(t.cursor, 2);
    assert!(t.cursor <= t.len());
    t.insert(2, 'd');
    assert_eq!(t.cursor, 3);
    assert_eq!(t.drain_all(), "bcd");
    assert_eq!(t.len(), 0);
    assert_eq!(t.cursor, 0);
}

#[test]
fn insert_after_cursor_leaves_cursor() {
    let mut t = text_of("ab");
    t.cursor = 0;
    t.insert(2, 'z');
    assert_eq!(t.cursor, 0);
    assert_eq!(t.get(2), 'z');
}

#[test]
fn clear_empties_text() {
    let mut t = text_of("hello");
    t.clear();
    assert!(t.is_empty());
    assert_eq!(t.cursor, 0);
}

#[test]
fn slice_returns_range() {
    let t = text_of("hello");
    assert_eq!(t.slice(1, 4), vec!['e', 'l', 'l']);
}

#[test]
fn back_word_skips_space_then_word() {
    let t = text_of("foo bar  baz");
    assert_eq!(back_word(&t, 12, false), 9);
    assert_eq!(back_word(&t, 9, false), 4);
    assert_eq!(back_word(&t, 4, false), 0);
    assert_eq!(back_word(&t, 0, false), 0);
}

#[test]
fn back_word_stops_at_punctuation_but_big_word_does_not() {
    let t = text_of("ab.cd");
    assert_eq!(back_word(&t, 5, false), 3);
    assert_eq!(back_word(&t, 5, true), 0);
}

#[test]
fn forward_word_moves_to_next_start() {
    let t = text_of("foo bar  baz");
    assert_eq!(forward_word(&t, 0, false), 4);
    assert_eq!(forward_word(&t, 4, false), 9);
    assert_eq!(forward_word(&t, 9, false), 12);
    assert_eq!(forward_word(&t, 12, false), 12);
}

#[test]
fn forward_big_word_crosses_punctuation() {
    let t = text_of("a.b c");
    assert_eq!(forward_word(&t, 0, true), 4);
    assert_eq!(forward_word(&t, 0, false), 1);
}

#[test]
fn end_of_word_goes_to_last_char() {
    let t = text_of("hello world");
    assert_eq!(end_of_word(&t, 0, false), 4);
    assert_eq!(end_of_word(&t, 4, false), 10);
    assert_eq!(end_of_word(&t, 10, false), 10);
    assert_eq!(end_of_word(&t, 11, true), 11);
}

#[test]
fn end_of_big_word_points_at_last_char() {
    let t = text_of("a.b cd");
    assert_eq!(end_of_word(&t, 0, true), 2);
    assert_eq!(end_of_word(&t, 2, true), 5);
}

#[test]
fn word_boundaries_of_word_and_space() {
    let t = text_of("foo  bar");
    assert_eq!(word_boundaries(&t, 1), (0, 3));
    assert_eq!(word_boundaries(&t, 3), (3, 5));
    assert_eq!(word_boundaries(&t, 6), (5, 8));
}

#[test]
fn word_boundaries_empty_text() {
    let t = EditableText::new();
    assert_eq!(word_boundaries(&t, 0), (0, 0));
}

#[test]
fn word_boundaries_idempotent_on_examples() {
    let t = text_of("x_1 + y2,  z");
    for c in 0..t.len() {
        let (s, e) = word_boundaries(&t, c);
        assert_eq!(word_boundaries(&t, s), (s, e));
    }
}

#[test]
fn selection_range_orders_bounds() {
    assert_eq!(selection_range(2, 5), (2, 6));
    assert_eq!(selection_range(5, 2), (2, 6));
    assert_eq!(selection_range(3, 3), (3, 4));
}

#[test]
fn end_of_word_crosses_punctuation() {
    let t = text_of("ab.cd");
    assert_eq!(end_of_word(&t, 0, false), 1);
    assert_eq!(end_of_word(&t, 1, false), 4);
    assert_eq!(end_of_word(&t, 2, false), 4);
    let u = text_of("_._");
    assert_eq!(end_of_word(&u, 0, false), 2);
    let v = text_of("x, ...");
    assert_eq!(end_of_word(&v, 0, false), 0);
}

#[test]
fn end_of_word_from_middle_stops_at_current_word() {
    let t = text_of("hello world");
    assert_eq!(end_of_word(&t, 1, false), 4);
    assert_eq!(end_of_word(&t, 5, false), 10);
}

#[test]
fn whitespace_classes() {
    for c in [' ', '\t', '\n', '\u{a0}', '\u{2003}', '\u{3000}'] {
        assert!(is_whitespace(c));
        assert_eq!(is_whitespace(c), c.is_whitespace());
    }
    for c in ['a', '_', '.', '\u{200b}', '\u{feff}'] {
        assert!(!is_whitespace(c));
        assert_eq!(is_whitespace(c), c.is_whitespace());
    }
}

#[test]
fn whitespace_agrees_with_std_on_every_char() {
    for u in 0..=0x10ffffu32 {
        if let Some(c) = char::from_u32(u) {
            assert_eq!(is_whitespace(c), c.is_whitespace(), "U+{:04X}", u);
        }
    }
}
