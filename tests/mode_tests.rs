use duckirc::app::{App, VimMode};
use duckirc::keys::{handle_keyboard_event, Key};
use duckirc::servers::ServerConfig;
use duckirc::store::ChannelContext;

fn app() -> App {
    App::new(&ServerConfig::default_config())
}

fn type_str(a: &mut App, s: &str) {
    for c in s.chars() {
        a.insert_msg_char(c);
    }
}

fn press(a: &mut App, k: Key) -> Vec<duckirc::irc::IrcCommand> {
    handle_keyboard_event(k, a, "me")
}

fn msg_text(a: &App) -> String {
    a.get_msg_iter().into_iter().collect()
}

fn with_destination(a: &mut App) {
    a.current_channel = Some(ChannelContext { server_name: "Libera".to_string(), channel_name: "#t".to_string() });
    a.channel_messages.ensure("Libera", "#t");
}

fn log_texts(a: &App) -> Vec<String> {
    a.get_current_messages().map(|m| m.messages.iter().map(|x| x.text.clone()).collect()).unwrap_or_default()
}

#[test]
fn new_app_seeds_roster_from_config() {
    let a = app();
    assert_eq!(a.servers.len(), 2);
    assert_eq!(a.servers[0].name, "Libera");
    assert!(!a.servers[0].is_connected);
    assert_eq!(a.vim_mode, VimMode::Normal);
    assert_eq!(a.get_mode_name(), "NORMAL");
}

#[test]
fn dd_clears_compose_buffer() {
    let mut a = app();
    press(&mut a, Key::Char('d'));
    assert_eq!(a.get_norm_text(), "d");
    press(&mut a, Key::Char('d'));
    assert_eq!(msg_text(&a), "");
    assert_eq!(a.get_norm_text(), "");
    assert_eq!(a.vim_mode, VimMode::Normal);
}

#[test]
fn dd_clears_nonempty_buffer() {
    let mut a = app();
    type_str(&mut a, "hello");
    press(&mut a, Key::Char('d'));
    press(&mut a, Key::Char('d'));
    assert_eq!(msg_text(&a), "");
    assert_eq!(a.msg_cursor_position(), 0);
}

#[test]
fn a_then_escape_steps_cursor_back() {
    let mut a = app();
    press(&mut a, Key::Char('a'));
    assert_eq!(a.vim_mode, VimMode::Insert);
    assert_eq!(a.prev_mode, Some(VimMode::Normal));
    for c in "hello".chars() {
        press(&mut a, Key::Char(c));
    }
    assert_eq!(a.msg_cursor_position(), 5);
    press(&mut a, Key::Esc);
    assert_eq!(a.msg_cursor_position(), 4);
    assert_eq!(a.vim_mode, VimMode::Normal);
}

#[test]
fn escape_inside_text_keeps_cursor() {
    let mut a = app();
    press(&mut a, Key::Char('i'));
    for c in "abc".chars() {
        press(&mut a, Key::Char(c));
    }
    press(&mut a, Key::Left);
    press(&mut a, Key::Esc);
    assert_eq!(a.msg_cursor_position(), 2);
}

#[test]
fn visual_yank_copies_selection() {
    let mut a = app();
    type_str(&mut a, "abcdefgh");
    a.msg.cursor = 2;
    press(&mut a, Key::Char('v'));
    assert_eq!(a.vim_mode, VimMode::Visual);
    assert_eq!(a.sel_start, Some(2));
    for _ in 0..3 {
        press(&mut a, Key::Char('l'));
    }
    assert_eq!(a.msg_cursor_position(), 5);
    assert_eq!(a.msg_selection_range(), Some((2, 6)));
    press(&mut a, Key::Char('y'));
    assert_eq!(a.yank, "cdef");
    assert_eq!(a.vim_mode, VimMode::Normal);
    assert_eq!(a.sel_start, None);
    assert_eq!(msg_text(&a), "abcdefgh");
}

#[test]
fn visual_delete_cuts_selection() {
    let mut a = app();
    type_str(&mut a, "abcdefgh");
    a.msg.cursor = 5;
    press(&mut a, Key::Char('v'));
    press(&mut a, Key::Char('h'));
    press(&mut a, Key::Char('h'));
    press(&mut a, Key::Char('x'));
    assert_eq!(a.yank, "def");
    assert_eq!(msg_text(&a), "abcgh");
    assert_eq!(a.msg_cursor_position(), 3);
    assert_eq!(a.prev_mode, Some(VimMode::Visual));
    assert_eq!(a.sel_start, None);
}

#[test]
fn visual_delete_of_everything_leaves_cursor_at_zero() {
    let mut a = app();
    type_str(&mut a, "ab");
    a.msg.cursor = 0;
    press(&mut a, Key::Char('v'));
    press(&mut a, Key::Char('l'));
    press(&mut a, Key::Char('d'));
    assert_eq!(msg_text(&a), "");
    assert_eq!(a.msg_cursor_position(), 0);
}

#[test]
fn diw_deletes_word_into_yank() {
    let mut a = app();
    type_str(&mut a, "foo bar baz");
    a.msg.cursor = 5;
    for c in "diw".chars() {
        press(&mut a, Key::Char(c));
    }
    assert_eq!(a.yank, "bar");
    assert_eq!(msg_text(&a), "foo  baz");
    assert_eq!(a.msg_cursor_position(), 4);
    assert_eq!(a.get_norm_text(), "");
}

#[test]
fn diw_at_end_of_text_pulls_cursor_back() {
    let mut a = app();
    type_str(&mut a, "foo bar");
    a.msg.cursor = 6;
    a.delete_inner_word_msg();
    assert_eq!(msg_text(&a), "foo ");
    assert_eq!(a.msg_cursor_position(), 3);
}

#[test]
fn paste_inserts_yank_at_cursor() {
    let mut a = app();
    type_str(&mut a, "ac");
    a.msg.cursor = 1;
    a.set_yank("bb".to_string());
    press(&mut a, Key::Char('p'));
    assert_eq!(msg_text(&a), "abbc");
    assert_eq!(a.msg_cursor_position(), 3);
}

#[test]
fn motions_from_normal_mode() {
    let mut a = app();
    type_str(&mut a, "one two three");
    press(&mut a, Key::Char('g'));
    press(&mut a, Key::Char('g'));
    assert_eq!(a.msg_cursor_position(), 0);
    press(&mut a, Key::Char('w'));
    assert_eq!(a.msg_cursor_position(), 4);
    press(&mut a, Key::Char('e'));
    assert_eq!(a.msg_cursor_position(), 6);
    press(&mut a, Key::Char('b'));
    assert_eq!(a.msg_cursor_position(), 4);
    press(&mut a, Key::Char('G'));
    assert_eq!(a.msg_cursor_position(), 13);
    press(&mut a, Key::Char('l'));
    assert_eq!(a.msg_cursor_position(), 13);
}

#[test]
fn unknown_prefix_grows_until_escape() {
    let mut a = app();
    press(&mut a, Key::Char('z'));
    press(&mut a, Key::Char('d'));
    assert_eq!(a.get_norm_text(), "zd");
    press(&mut a, Key::Esc);
    assert_eq!(a.get_norm_text(), "");
}

#[test]
fn hints_for_prefixes() {
    let mut a = app();
    a.push_norm_char('d');
    assert_eq!(a.get_avaiable_normal_commands(), vec!["d -> delete msg", "i -> delete inner"]);
    a.push_norm_char('i');
    assert_eq!(a.get_avaiable_normal_commands(), vec!["w -> delete inner word"]);
}

#[test]
fn tab_cycles_modes() {
    let mut a = app();
    press(&mut a, Key::Tab);
    assert_eq!(a.vim_mode, VimMode::Server);
    assert_eq!(a.server_tree.len(), 2);
    press(&mut a, Key::Tab);
    assert_eq!(a.vim_mode, VimMode::Messages);
    press(&mut a, Key::Tab);
    assert_eq!(a.vim_mode, VimMode::Clients);
    press(&mut a, Key::Tab);
    assert_eq!(a.vim_mode, VimMode::Normal);
}

#[test]
fn q_requests_quit() {
    let mut a = app();
    press(&mut a, Key::Char('q'));
    assert!(a.should_quit);
}

#[test]
fn insert_enter_sends_and_echoes() {
    let mut a = app();
    with_destination(&mut a);
    press(&mut a, Key::Char('i'));
    for c in "hi".chars() {
        press(&mut a, Key::Char(c));
    }
    let out = press(&mut a, Key::Enter);
    assert_eq!(out.len(), 1);
    assert!(matches!(&out[0], duckirc::irc::IrcCommand::PrivMsg(t) if t == "hi"));
    assert_eq!(msg_text(&a), "");
    assert_eq!(a.msg_cursor_position(), 0);
    let log = a.get_current_messages().unwrap();
    assert_eq!(log.messages.len(), 1);
    assert_eq!(log.messages[0].nick.as_deref(), Some("me"));
}

#[test]
fn insert_enter_on_empty_buffer_sends_nothing() {
    let mut a = app();
    press(&mut a, Key::Char('i'));
    let out = press(&mut a, Key::Enter);
    assert!(out.is_empty());
}

#[test]
fn backspace_in_insert_mode() {
    let mut a = app();
    press(&mut a, Key::Char('i'));
    for c in "abc".chars() {
        press(&mut a, Key::Char(c));
    }
    press(&mut a, Key::Backspace);
    assert_eq!(msg_text(&a), "ab");
    assert_eq!(a.msg_cursor_position(), 2);
}

#[test]
fn messages_mode_keys() {
    let mut a = app();
    with_destination(&mut a);
    for i in 0..4 {
        a.push_system_to_current(format!("m{}", i));
    }
    press(&mut a, Key::Char('m'));
    assert_eq!(a.vim_mode, VimMode::Messages);
    press(&mut a, Key::Char('g'));
    press(&mut a, Key::Char('g'));
    assert_eq!(a.get_current_messages().unwrap().msg_index, 0);
    press(&mut a, Key::Char('j'));
    assert_eq!(a.get_current_messages().unwrap().msg_index, 1);
    press(&mut a, Key::Char('y'));
    assert_eq!(a.yank, "m1");
    assert_eq!(a.vim_mode, VimMode::Normal);
    assert_eq!(log_texts(&a).len(), 4);
}

#[test]
fn clear_log_with_capital_c() {
    let mut a = app();
    with_destination(&mut a);
    a.push_system_to_current("x".to_string());
    press(&mut a, Key::Char('C'));
    assert!(log_texts(&a).is_empty());
}

#[test]
fn clients_mode_keys() {
    let mut a = app();
    a.clients = vec![
        duckirc::tree::ClientInfo { name: "ann".to_string() },
        duckirc::tree::ClientInfo { name: "bob".to_string() },
    ];
    press(&mut a, Key::Char('c'));
    assert_eq!(a.vim_mode, VimMode::Clients);
    press(&mut a, Key::Char('G'));
    assert_eq!(a.client_index, 1);
    press(&mut a, Key::Char('k'));
    assert_eq!(a.client_index, 0);
    press(&mut a, Key::Down);
    assert_eq!(a.client_index, 1);
    press(&mut a, Key::Char('y'));
    assert_eq!(a.yank, "bob");
    assert_eq!(a.vim_mode, VimMode::Normal);
}

#[test]
fn command_mode_escape_returns() {
    let mut a = app();
    press(&mut a, Key::Char(':'));
    assert_eq!(a.vim_mode, VimMode::Command);
    press(&mut a, Key::Char('x'));
    assert_eq!(a.get_cmd_text(), "x");
    press(&mut a, Key::Esc);
    assert_eq!(a.get_cmd_text(), "");
    assert_eq!(a.vim_mode, VimMode::Normal);
}

#[test]
fn current_log_can_be_changed_in_place() {
    let mut a = app();
    assert!(a.get_current_messages_mut().is_none());
    with_destination(&mut a);
    a.push_system_to_current("x".to_string());
    {
        let m = a.get_current_messages_mut().unwrap();
        m.set_viewport_height(7);
    }
    assert_eq!(a.get_current_messages().unwrap().viewport_height, 7);
    assert_eq!(log_texts(&a), vec!["x".to_string()]);
}

#[test]
fn tab_out_of_visual_drops_anchor() {
    let mut a = app();
    type_str(&mut a, "abc");
    a.msg.cursor = 1;
    press(&mut a, Key::Char('v'));
    assert_eq!(a.sel_start, Some(1));
    press(&mut a, Key::Tab);
    assert_eq!(a.vim_mode, VimMode::Server);
    assert_eq!(a.sel_start, None);
}

#[test]
fn escape_out_of_visual_drops_anchor() {
    let mut a = app();
    type_str(&mut a, "abc");
    press(&mut a, Key::Char('v'));
    press(&mut a, Key::Esc);
    assert_eq!(a.vim_mode, VimMode::Normal);
    assert_eq!(a.sel_start, None);
}
