use duckirc::tree::{build_tree, clamp_selection, toggle_expansion, ChannelInfo, ServerInfo, ServerTreeItem};

fn chan(name: &str) -> ChannelInfo {
    ChannelInfo { name: name.to_string(), topic: None, client_count: None, is_joined: false, is_dm: false }
}

fn server(name: &str, expanded: bool, chans: &[&str]) -> ServerInfo {
    ServerInfo {
        name: name.to_string(),
        is_connected: false,
        channels: chans.iter().map(|c| chan(c)).collect(),
        is_expanded: expanded,
    }
}

#[test]
fn rebuild_lists_expanded_channels_only() {
    let servers = vec![server("A", true, &["x", "y"]), server("B", false, &["z"])];
    let t = build_tree(&servers);
    assert_eq!(
        t,
        vec![
            ServerTreeItem::Server { server_idx: 0 },
            ServerTreeItem::Channel { server_idx: 0, channel_idx: 0 },
            ServerTreeItem::Channel { server_idx: 0, channel_idx: 1 },
            ServerTreeItem::Server { server_idx: 1 },
        ]
    );
}

#[test]
fn rebuild_of_empty_roster_is_empty() {
    assert!(build_tree(&Vec::new()).is_empty());
}

#[test]
fn clamp_selection_bounds() {
    assert_eq!(clamp_selection(7, 4), 3);
    assert_eq!(clamp_selection(2, 4), 2);
    assert_eq!(clamp_selection(5, 0), 0);
}

#[test]
fn toggle_collapses_others_and_flips_target() {
    let mut servers = vec![server("A", true, &[]), server("B", false, &[]), server("C", false, &[])];
    toggle_expansion(&mut servers, 1);
    assert_eq!(servers.iter().map(|s| s.is_expanded).collect::<Vec<_>>(), vec![false, true, false]);
    toggle_expansion(&mut servers, 1);
    assert_eq!(servers.iter().map(|s| s.is_expanded).collect::<Vec<_>>(), vec![false, false, false]);
}
