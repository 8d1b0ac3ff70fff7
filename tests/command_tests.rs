use duckirc::app::{App, VimMode};
use duckirc::irc::{IrcCommand, UiEvent};
use duckirc::keys::{handle_keyboard_event, Key};
use duckirc::servers::ServerConfig;
use duckirc::store::ChannelContext;

fn app() -> App {
    let mut a = App::new(&ServerConfig::default_config());
    a.current_channel = Some(ChannelContext { server_name: "Libera".to_string(), channel_name: "status".to_string() });
    a.channel_messages.ensure("Libera", "status");
    a
}

fn connected() -> App {
    let mut a = app();
    a.is_connected = true;
    a.servers[0].is_connected = true;
    a
}

fn last_line(a: &App) -> String {
    a.get_current_messages().unwrap().messages.last().unwrap().text.clone()
}

fn lines(a: &App) -> Vec<String> {
    a.get_current_messages().unwrap().messages.iter().map(|m| m.text.clone()).collect()
}

fn submit(a: &mut App, line: &str) -> Vec<IrcCommand> {
    handle_keyboard_event(Key::Char(':'), a, "me");
    for c in line.chars() {
        handle_keyboard_event(Key::Char(c), a, "me");
    }
    handle_keyboard_event(Key::Enter, a, "me")
}

#[test]
fn join_while_disconnected_reports_and_returns() {
    let mut a = app();
    let out = submit(&mut a, "join #test");
    assert!(out.is_empty());
    assert_eq!(last_line(&a), "Not connected to server yet. Use 'connect <server>' first.");
    assert_eq!(a.vim_mode, VimMode::Normal);
    assert_eq!(a.get_cmd_text(), "");
}

#[test]
fn join_when_connected_opens_channel() {
    let mut a = connected();
    let out = a.execute_command("join #rust");
    assert_eq!(out.len(), 2);
    assert!(matches!(&out[0], IrcCommand::Join(c) if c == "#rust"));
    assert!(matches!(&out[1], IrcCommand::SetCurrentChannel(c) if c == "#rust"));
    let cur = a.current_channel.as_ref().unwrap();
    assert_eq!(cur.server_name, "Libera");
    assert_eq!(cur.channel_name, "#rust");
    assert_eq!(a.channel, "#rust");
    assert!(a.channel_messages.get("Libera", "#rust").is_some());
}

#[test]
fn join_rejects_channel_without_hash() {
    let mut a = connected();
    let out = a.execute_command("join rust");
    assert!(out.is_empty());
    assert_eq!(last_line(&a), "Channel must start with #");
}

#[test]
fn join_usage_without_argument() {
    let mut a = connected();
    a.execute_command("join");
    let l = lines(&a);
    assert_eq!(l[l.len() - 2..], ["Usage: join <#channel>".to_string(), "Example: join #rust".to_string()]);
}

#[test]
fn join_without_connected_server_reports() {
    let mut a = app();
    a.is_connected = true;
    let out = a.execute_command("join #x");
    assert!(out.is_empty());
    assert_eq!(last_line(&a), "Error: No server connected");
}

#[test]
fn connect_emits_intent() {
    let mut a = app();
    let out = a.execute_command("connect Libera");
    assert_eq!(out.len(), 1);
    assert!(matches!(&out[0], IrcCommand::Connect(s) if s == "Libera"));
    assert_eq!(last_line(&a), "Connecting to Libera...");
}

#[test]
fn connect_usage_and_already_connected() {
    let mut a = app();
    a.execute_command("connect");
    assert_eq!(lines(&a).len(), 3);
    assert_eq!(last_line(&a), "Example: connect irc.example.org:6667");
    a.execute_command("connect  ");
    assert_eq!(last_line(&a), "Please specify a server");
    let mut b = connected();
    assert!(b.execute_command("connect x").is_empty());
    assert_eq!(last_line(&b), "Already connected.");
}

#[test]
fn disconnect_flips_flag() {
    let mut a = connected();
    let out = a.execute_command("disconnect");
    assert!(matches!(out[..], [IrcCommand::Disconnect]));
    assert!(!a.is_connected);
    assert_eq!(last_line(&a), "Disconnected from server.");
    assert!(a.execute_command("disconnect").is_empty());
    assert_eq!(last_line(&a), "Not connected.");
}

#[test]
fn msg_opens_dm_and_echoes() {
    let mut a = connected();
    a.current_nick = "me".to_string();
    let out = a.execute_command("msg alice hello there");
    assert_eq!(out.len(), 3);
    assert!(matches!(&out[0], IrcCommand::Join(t) if t == "alice"));
    assert!(matches!(&out[1], IrcCommand::PrivMsg(t) if t == "hello there"));
    assert!(matches!(&out[2], IrcCommand::SetCurrentChannel(t) if t == "alice"));
    let dm = a.servers[0].channels.last().unwrap();
    assert_eq!(dm.name, "alice");
    assert!(dm.is_dm && dm.is_joined);
    assert_eq!(dm.client_count, Some(1));
    let log = a.channel_messages.get("Libera", "alice").unwrap();
    assert_eq!(log.messages[0].text, "hello there");
    assert_eq!(log.messages[0].nick.as_deref(), Some("me"));
    assert_eq!(a.server_tree.len(), 2);
}

#[test]
fn msg_usage_and_empty_text() {
    let mut a = connected();
    assert!(a.execute_command("msg alice").is_empty());
    assert_eq!(last_line(&a), "Example: msg Alice Hello!");
    assert!(a.execute_command("msg alice ").is_empty());
    assert_eq!(last_line(&a), "Message cannot be empty");
}

#[test]
fn nick_sets_current_nick() {
    let mut a = app();
    let out = a.execute_command("nick  quack ");
    assert!(matches!(&out[0], IrcCommand::Nick(n) if n == "quack"));
    assert_eq!(a.current_nick, "quack");
    assert!(a.execute_command("nick").is_empty());
    assert_eq!(last_line(&a), "Usage: nick <nickname>");
}

#[test]
fn add_server_parses_arguments() {
    let mut a = app();
    let out = a.execute_command("add_server Mine irc.mine.org 6697 false");
    match &out[0] {
        IrcCommand::AddServer { name, address, port, use_tls } => {
            assert_eq!(name, "Mine");
            assert_eq!(address, "irc.mine.org");
            assert_eq!(*port, 6697);
            assert!(!*use_tls);
        },
        _ => panic!("expected AddServer"),
    }
    let out = a.execute_command("add_server Mine irc.mine.org 6667");
    assert!(matches!(&out[0], IrcCommand::AddServer { use_tls: true, port: 6667, .. }));
}

#[test]
fn add_server_rejects_bad_port_and_missing_args() {
    let mut a = app();
    assert!(a.execute_command("add_server Mine irc.mine.org 70000").is_empty());
    assert_eq!(last_line(&a), "Invalid port number");
    assert!(a.execute_command("add_server Mine").is_empty());
    assert_eq!(last_line(&a), "Example: add_server MyServer irc.example.org 6697 true");
}

#[test]
fn remove_and_list_servers() {
    let mut a = app();
    let out = a.execute_command("remove_server OFTC");
    assert!(matches!(&out[0], IrcCommand::RemoveServer(n) if n == "OFTC"));
    let out = a.execute_command("servers");
    assert!(matches!(out[..], [IrcCommand::ListServers]));
    assert!(a.execute_command("rm_server").is_empty());
    assert_eq!(last_line(&a), "Usage: remove_server <name>");
}

#[test]
fn status_reports_state() {
    let mut a = app();
    a.execute_command("status");
    let l = lines(&a);
    assert_eq!(l[l.len() - 2..], ["Status: Disconnected".to_string(), "Channel: No channel joined".to_string()]);
}

#[test]
fn unknown_command_reports() {
    let mut a = app();
    assert!(a.execute_command("frobnicate").is_empty());
    assert_eq!(last_line(&a), "Unknown command: frobnicate. Type 'help' for available commands.");
    assert!(a.execute_command("").is_empty());
}

#[test]
fn quit_clear_and_vimless() {
    let mut a = app();
    a.push_system_to_current("x".to_string());
    a.execute_command("c");
    assert!(lines(&a).is_empty());
    a.execute_command("vimless");
    assert_eq!(a.vim_mode, VimMode::Vimless);
    a.execute_command("q");
    assert!(a.should_quit);
}

#[test]
fn vimless_mode_is_entered_from_command_line() {
    let mut a = app();
    submit(&mut a, "vimless");
    assert_eq!(a.vim_mode, VimMode::Vimless);
    for c in "hi all".chars() {
        handle_keyboard_event(Key::Char(c), &mut a, "me");
    }
    let out = handle_keyboard_event(Key::Enter, &mut a, "me");
    assert!(matches!(&out[0], IrcCommand::PrivMsg(t) if t == "hi all"));
    assert_eq!(last_line(&a), "hi all");
    for c in "/vim".chars() {
        handle_keyboard_event(Key::Char(c), &mut a, "me");
    }
    handle_keyboard_event(Key::Enter, &mut a, "me");
    assert_eq!(a.vim_mode, VimMode::Normal);
    assert_eq!(a.prev_mode, None);
}

#[test]
fn vimless_join_uses_slash_texts() {
    let mut a = app();
    a.vim_mode = VimMode::Vimless;
    for c in "/join #x".chars() {
        a.insert_msg_char(c);
    }
    assert!(a.execute_vimless().is_empty());
    assert_eq!(last_line(&a), "Not connected to server yet. Use '/connect <server>' first.");
    assert_eq!(a.msg_cursor_position(), 0);
}

#[test]
fn server_enter_connects_and_expands() {
    let mut a = app();
    handle_keyboard_event(Key::Char('s'), &mut a, "me");
    assert_eq!(a.vim_mode, VimMode::Server);
    let out = handle_keyboard_event(Key::Enter, &mut a, "me");
    assert!(matches!(&out[..], [IrcCommand::Disconnect, IrcCommand::Connect(n)] if n == "Libera"));
    assert!(a.servers[0].is_expanded);
    assert_eq!(a.current_channel.as_ref().unwrap().channel_name, "status");
}

#[test]
fn server_enter_on_connected_disconnects() {
    let mut a = connected();
    a.rebuild_server_tree();
    let out = a.resolve_tree_entry(0);
    assert!(matches!(&out[..], [IrcCommand::Disconnect]));
    assert!(a.current_channel.is_none());
    assert_eq!(a.channel, "");
}

#[test]
fn channel_row_needs_connected_server() {
    let mut a = app();
    a.apply_ui_event(UiEvent::ChannelUpdate {
        server_name: "OFTC".to_string(),
        channel_name: "#c".to_string(),
        topic: None,
        client_count: 2,
        clients: vec![],
        is_joined: true,
        is_dm: false,
    });
    a.toggle_server_expansion(1);
    a.rebuild_server_tree();
    assert_eq!(a.server_tree.len(), 3);
    let out = a.resolve_tree_entry(2);
    assert!(out.is_empty());
    assert_eq!(last_line(&a), "Not connected to server OFTC. Connect first.");
    a.servers[1].is_connected = true;
    let out = a.resolve_tree_entry(2);
    assert!(matches!(&out[..], [IrcCommand::Join(c), IrcCommand::SetCurrentChannel(_)] if c == "#c"));
    assert_eq!(a.channel, "#c");
}

#[test]
fn client_enter_opens_dm() {
    let mut a = connected();
    a.clients = vec![duckirc::tree::ClientInfo { name: "zed".to_string() }];
    let out = a.join_selected_client_channel();
    assert_eq!(out.len(), 2);
    assert_eq!(a.servers[0].channels.last().unwrap().name, "zed");
    assert_eq!(a.servers[0].channels.last().unwrap().client_count, None);
    assert_eq!(a.channel, "zed");
}
