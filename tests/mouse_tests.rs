use duckirc::app::{App, VimMode};
use duckirc::mouse::{handle_mouse_event, ClickState, MouseEvent, MouseKind};
use duckirc::servers::ServerConfig;

#[test]
fn double_click_needs_same_place_and_time() {
    let mut c = ClickState::new();
    assert!(!c.is_double_click(3, 4, 1000));
    assert!(c.is_double_click(3, 4, 1400));
    assert!(!c.is_double_click(3, 4, 2000));
    assert!(!c.is_double_click(3, 5, 2100));
}

#[test]
fn click_on_tree_row_selects_and_double_click_acts() {
    let mut a = App::new(&ServerConfig::default_config());
    a.vim_mode = VimMode::Server;
    a.rebuild_server_tree();
    let mut c = ClickState::new();
    let ev = MouseEvent { kind: MouseKind::LeftDown, column: 2, row: 2 };
    let out = handle_mouse_event(&mut a, ev, &mut c, 40, 100, 10);
    assert!(out.is_empty());
    assert_eq!(a.server_tree_index, 1);
    let out = handle_mouse_event(&mut a, ev, &mut c, 40, 100, 20);
    assert_eq!(out.len(), 2);
    assert!(a.servers[1].is_expanded);
}

#[test]
fn scroll_moves_tree_selection() {
    let mut a = App::new(&ServerConfig::default_config());
    a.vim_mode = VimMode::Server;
    a.rebuild_server_tree();
    let mut c = ClickState::new();
    handle_mouse_event(&mut a, MouseEvent { kind: MouseKind::ScrollDown, column: 0, row: 0 }, &mut c, 40, 100, 0);
    assert_eq!(a.server_tree_index, 1);
    handle_mouse_event(&mut a, MouseEvent { kind: MouseKind::ScrollDown, column: 0, row: 0 }, &mut c, 40, 100, 0);
    assert_eq!(a.server_tree_index, 1);
    handle_mouse_event(&mut a, MouseEvent { kind: MouseKind::ScrollUp, column: 0, row: 0 }, &mut c, 40, 100, 0);
    assert_eq!(a.server_tree_index, 0);
}

#[test]
fn click_below_messages_returns_to_normal() {
    let mut a = App::new(&ServerConfig::default_config());
    a.vim_mode = VimMode::Messages;
    let mut c = ClickState::new();
    handle_mouse_event(&mut a, MouseEvent { kind: MouseKind::LeftDown, column: 5, row: 39 }, &mut c, 40, 100, 0);
    assert_eq!(a.vim_mode, VimMode::Normal);
    assert_eq!(a.prev_mode, Some(VimMode::Messages));
}
