use duckirc::messages::{color_for_user, ChannelMessages, ColoredMessage};
use duckirc::store::MessageStore;

fn log_with(n: usize, height: usize) -> ChannelMessages {
    let mut m = ChannelMessages::new();
    m.set_viewport_height(height);
    for i in 0..n {
        m.append(ColoredMessage::system(format!("line {}", i)));
    }
    m
}

#[test]
fn append_at_bottom_follows() {
    let mut m = log_with(5, 3);
    assert_eq!(m.msg_index, 4);
    assert_eq!(m.msg_scroll, 2);
    m.append(ColoredMessage::system("new".to_string()));
    assert_eq!(m.msg_index, 5);
    assert_eq!(m.msg_scroll, 3);
    assert_eq!(m.messages.len(), 6);
}

#[test]
fn append_when_scrolled_up_stays() {
    let mut m = log_with(5, 3);
    m.jump_to(1);
    let (i, s) = (m.msg_index, m.msg_scroll);
    m.append(ColoredMessage::system("new".to_string()));
    assert_eq!(m.msg_index, i);
    assert_eq!(m.msg_scroll, s);
    assert_eq!(m.messages.len(), 6);
}

#[test]
fn append_without_viewport_keeps_scroll() {
    let mut m = log_with(3, 0);
    assert_eq!(m.msg_index, 2);
    assert_eq!(m.msg_scroll, 0);
}

#[test]
fn append_quiet_keeps_selection() {
    let mut m = log_with(2, 3);
    m.append_quiet(ColoredMessage::system("q".to_string()));
    assert_eq!(m.msg_index, 1);
    assert_eq!(m.messages.len(), 3);
}

#[test]
fn moves_keep_selection_in_window() {
    let mut m = log_with(10, 3);
    m.jump_top();
    for _ in 0..12 {
        m.move_down();
        assert!(m.msg_scroll <= m.msg_index);
        assert!(m.msg_index < m.msg_scroll + m.viewport_height);
    }
    assert_eq!(m.msg_index, 9);
    assert_eq!(m.msg_scroll, 7);
    for _ in 0..12 {
        m.move_up();
        assert!(m.msg_scroll <= m.msg_index);
        assert!(m.msg_index < m.msg_scroll + m.viewport_height);
    }
    assert_eq!(m.msg_index, 0);
    assert_eq!(m.msg_scroll, 0);
}

#[test]
fn jump_to_scrolls_minimally_and_ignores_out_of_range() {
    let mut m = log_with(10, 3);
    m.jump_to(2);
    assert_eq!((m.msg_index, m.msg_scroll), (2, 2));
    m.jump_to(6);
    assert_eq!((m.msg_index, m.msg_scroll), (6, 4));
    m.jump_to(5);
    assert_eq!((m.msg_index, m.msg_scroll), (5, 4));
    m.jump_to(10);
    assert_eq!((m.msg_index, m.msg_scroll), (5, 4));
}

#[test]
fn jump_bottom_and_clear() {
    let mut m = log_with(10, 4);
    m.jump_top();
    m.jump_bottom();
    assert_eq!((m.msg_index, m.msg_scroll), (9, 6));
    m.clear();
    assert_eq!(m.messages.len(), 0);
    assert_eq!((m.msg_index, m.msg_scroll), (0, 0));
    m.jump_bottom();
    assert_eq!((m.msg_index, m.msg_scroll), (0, 0));
}

#[test]
fn nick_colour_is_stable_hash() {
    assert_eq!(color_for_user("bob"), 1);
    assert_eq!(color_for_user(""), 0);
    assert_eq!(color_for_user("bob"), color_for_user("bob"));
    assert!(color_for_user("someone_else") < 12);
}

#[test]
fn user_message_carries_nick_and_colour() {
    let m = ColoredMessage::from_user("bob", "hi");
    assert_eq!(m.nick.as_deref(), Some("bob"));
    assert_eq!(m.text, "hi");
    assert_eq!(m.color, Some(1));
}

#[test]
fn store_creates_log_once() {
    let mut s = MessageStore::new();
    assert!(s.get("srv", "#a").is_none());
    let i = s.ensure("srv", "#a");
    let j = s.ensure("srv", "#a");
    assert_eq!(i, j);
    assert_eq!(s.entries.len(), 1);
    let k = s.ensure("srv", "#b");
    assert_ne!(i, k);
    assert!(s.get("srv", "#b").is_some());
    assert_eq!(s.find("srv", "#b"), Some(k));
}

#[test]
fn store_apply_creates_and_appends() {
    let mut s = MessageStore::new();
    s.apply("srv", "#a", duckirc::store::LogOp::Append(ColoredMessage::system("x".to_string())));
    let log = s.get("srv", "#a").unwrap();
    assert_eq!(log.messages.len(), 1);
    assert_eq!(log.messages[0].text, "x");
}
