use duckirc::app::App;
use duckirc::irc::{parse_names, UiEvent};
use duckirc::servers::ServerConfig;
use duckirc::store::ChannelContext;

fn app() -> App {
    App::new(&ServerConfig::default_config())
}

#[test]
fn channel_update_for_unknown_destination_creates_it() {
    let mut a = app();
    a.apply_ui_event(UiEvent::ChannelUpdate {
        server_name: "Libera".to_string(),
        channel_name: "#new".to_string(),
        topic: Some("t".to_string()),
        client_count: 3,
        clients: vec!["a".to_string(), "b".to_string(), "c".to_string()],
        is_joined: true,
        is_dm: false,
    });
    assert!(a.channel_messages.get("Libera", "#new").is_some());
    let ch = &a.servers[0].channels[0];
    assert_eq!(ch.name, "#new");
    assert_eq!(ch.topic.as_deref(), Some("t"));
    assert_eq!(ch.client_count, Some(3));
    assert!(a.clients.is_empty());
    assert_eq!(a.server_tree.len(), 2);
}

#[test]
fn channel_update_for_current_destination_sets_clients() {
    let mut a = app();
    a.current_channel = Some(ChannelContext { server_name: "Libera".to_string(), channel_name: "#x".to_string() });
    let ev = |n: usize| UiEvent::ChannelUpdate {
        server_name: "Libera".to_string(),
        channel_name: "#x".to_string(),
        topic: None,
        client_count: n,
        clients: vec!["ann".to_string(); n],
        is_joined: true,
        is_dm: false,
    };
    a.apply_ui_event(ev(2));
    a.apply_ui_event(ev(1));
    assert_eq!(a.clients.len(), 1);
    assert_eq!(a.servers[0].channels.len(), 1);
    assert_eq!(a.servers[0].channels[0].client_count, Some(1));
}

#[test]
fn connected_event_opens_status() {
    let mut a = app();
    a.apply_ui_event(UiEvent::Connected { nick: "duck".to_string(), server_name: "OFTC".to_string() });
    assert!(a.is_connected);
    assert!(a.servers[1].is_connected);
    assert!(!a.servers[0].is_connected);
    let log = a.get_current_messages().unwrap();
    assert_eq!(log.messages.len(), 2);
    assert_eq!(log.messages[0].text, "\u{2714} Connected as duck");
    a.apply_ui_event(UiEvent::Disconnected { server_name: "OFTC".to_string() });
    assert!(!a.is_connected);
    assert!(!a.servers[1].is_connected);
}

#[test]
fn message_event_parses_nick() {
    let mut a = app();
    a.apply_ui_event(UiEvent::Connected { nick: "duck".to_string(), server_name: "Libera".to_string() });
    a.apply_ui_event(UiEvent::Message("<bob> hi".to_string()));
    a.apply_ui_event(UiEvent::Message("bob joined #x".to_string()));
    let log = a.get_current_messages().unwrap();
    let user = &log.messages[2];
    assert_eq!(user.nick.as_deref(), Some("bob"));
    assert_eq!(user.text, " hi");
    assert_eq!(user.color, Some(1));
    assert_eq!(log.messages[3].nick, None);
    assert_eq!(log.messages[3].text, "bob joined #x");
}

#[test]
fn error_event_mentions_connection() {
    let mut a = app();
    a.apply_ui_event(UiEvent::Connected { nick: "duck".to_string(), server_name: "Libera".to_string() });
    a.apply_ui_event(UiEvent::Error("Not connected yet".to_string()));
    assert!(!a.is_connected);
    let log = a.get_current_messages().unwrap();
    assert_eq!(log.messages.last().unwrap().text, "\u{2716} IRC error: Not connected yet");
    a.is_connected = true;
    a.apply_ui_event(UiEvent::Error("No channel joined".to_string()));
    assert!(a.is_connected);
}

#[test]
fn names_drop_status_marks() {
    assert_eq!(parse_names("@op +voice plain  @+both"), vec!["op", "voice", "plain", "both"]);
    assert!(parse_names("   ").is_empty());
}

#[test]
fn initial_messages_do_not_move_selection() {
    let mut a = app();
    a.current_channel = Some(ChannelContext { server_name: "Libera".to_string(), channel_name: "status".to_string() });
    a.push_initial_messages();
    let log = a.get_current_messages().unwrap();
    assert_eq!(log.messages.len(), 16);
    assert_eq!(log.messages[0].text, "Welcome to DuckIRC!");
    assert_eq!(log.msg_index, 0);
}
