use vstd::prelude::*;
use crate::app::{next_mode, App, VimMode};
use crate::commands::command_line;
use crate::commands::vimless_line;
use crate::editing::right_target;
use crate::interpret::line_effect;
use crate::irc::{intents, Intent, IrcCommand};
use crate::messages::user_line;
use crate::modes::{clients_effect, messages_effect, normal_effect, visual_effect};
use crate::resolve::{client_join_effect, tree_entry_effect};
use crate::store::LogEdit;
use crate::tree::{clamp_index, tree_of};

verus! {

/// A key press as the modal core sees it.
#[derive(Clone, Copy, PartialEq, Eq, Structural)]
pub enum Key {
    Char(char),
    Tab,
    Esc,
    Enter,
    Backspace,
    Left,
    Right,
    Up,
    Down,
    /// any key the core does not use
    Other,
}

/// The mode a mode's Esc or return goes back to.
pub open spec fn remembered(m: Option<VimMode>) -> VimMode {
    match m {
        Some(x) => x,
        None => VimMode::Normal,
    }
}

/// Tab: the tree rebuilt, the mode advanced along its cycle; leaving Visual
/// mode drops the selection anchor.
pub open spec fn tab_effect(o: App, n: App) -> bool {
    &&& n.server_tree@ == tree_of(o.servers@)
    &&& n.server_tree_index == clamp_index(
        o.server_tree_index as int,
        tree_of(o.servers@).len() as int,
    )
    &&& n == (App {
        server_tree: n.server_tree,
        server_tree_index: n.server_tree_index,
        vim_mode: next_mode(o.vim_mode),
        sel_start: if o.vim_mode == VimMode::Visual {
            None
        } else {
            o.sel_start
        },
        ..o
    })
}

/// Only the compose buffer changed: `c` typed at the cursor.
pub open spec fn typed(o: App, n: App, c: char) -> bool {
    &&& n == (App { msg: n.msg, ..o })
    &&& if o.msg@.len() + 1 < usize::MAX {
        n.msg@ == o.msg@.insert(o.msg.cursor as int, c) && n.msg.cursor == o.msg.cursor + 1
    } else {
        n.msg == o.msg
    }
}

/// Only the compose buffer changed: the character before the cursor removed.
pub open spec fn erased(o: App, n: App) -> bool {
    &&& n == (App { msg: n.msg, ..o })
    &&& if o.msg.cursor > 0 {
        n.msg@ == o.msg@.remove(o.msg.cursor - 1) && n.msg.cursor == o.msg.cursor - 1
    } else {
        n.msg == o.msg
    }
}

/// Only the compose cursor moved, to `c`.
pub open spec fn moved(o: App, n: App, c: int) -> bool {
    n.msg@ == o.msg@ && n.msg.cursor == c && n == (App { msg: n.msg, ..o })
}

/// Only the command line changed: `c` typed at its cursor.
pub open spec fn cmd_typed(o: App, n: App, c: char) -> bool {
    &&& n == (App { cmd: n.cmd, ..o })
    &&& if o.cmd@.len() + 1 < usize::MAX {
        n.cmd@ == o.cmd@.insert(o.cmd.cursor as int, c) && n.cmd.cursor == o.cmd.cursor + 1
    } else {
        n.cmd == o.cmd
    }
}

/// Only the command-line cursor moved, to `c`.
pub open spec fn cmd_moved(o: App, n: App, c: int) -> bool {
    n.cmd@ == o.cmd@ && n.cmd.cursor == c && n == (App { cmd: n.cmd, ..o })
}

/// Mode set to `m`, `p` remembered, nothing else.
pub open spec fn switched(o: App, n: App, m: VimMode, p: Option<VimMode>) -> bool {
    n == (App { vim_mode: m, prev_mode: p, ..o })
}

pub open spec fn normal_key(o: App, n: App, key: Key) -> bool {
    match key {
        Key::Tab => tab_effect(o, n),
        Key::Char(':') => n.norm@.len() == 0 && n == (App {
            vim_mode: VimMode::Command,
            prev_mode: Some(VimMode::Normal),
            norm: n.norm,
            ..o
        }),
        Key::Esc => n.norm@.len() == 0 && n == (App { norm: n.norm, ..o }),
        Key::Left => normal_after(o, n, 'h'),
        Key::Right => normal_after(o, n, 'l'),
        Key::Char(c) => normal_after(o, n, c),
        _ => n == o,
    }
}

/// `c` added to the pending Normal-mode command, which then runs.
pub open spec fn normal_after(o: App, n: App, c: char) -> bool {
    exists|mid: App|
        mid == (App { norm: mid.norm, ..o }) && mid.norm@ == o.norm@.push(c) && #[trigger] normal_effect(
            mid,
            n,
        )
}

/// `c` added to the pending Visual-mode command, which then runs.
pub open spec fn visual_after(o: App, n: App, c: char) -> bool {
    exists|mid: App|
        mid == (App { vis: mid.vis, ..o }) && mid.vis@ == o.vis@.push(c) && #[trigger] visual_effect(
            mid,
            n,
        )
}

/// `c` added to the pending Messages-mode command, which then runs.
pub open spec fn messages_after(o: App, n: App, c: char) -> bool {
    exists|mid: App|
        mid == (App { messages_cmd: mid.messages_cmd, ..o }) && mid.messages_cmd@
            == o.messages_cmd@.push(c) && #[trigger] messages_effect(mid, n)
}

/// `c` added to the pending Clients-mode command, which then runs.
pub open spec fn clients_after(o: App, n: App, c: char) -> bool {
    exists|mid: App|
        mid == (App { clients_cmd: mid.clients_cmd, ..o }) && mid.clients_cmd@
            == o.clients_cmd@.push(c) && #[trigger] clients_effect(mid, n)
}

pub open spec fn insert_key(o: App, n: App, out: Seq<Intent>, key: Key, nick: Seq<char>) -> bool {
    let c = o.msg.cursor as int;
    match key {
        Key::Tab => tab_effect(o, n) && out.len() == 0,
        Key::Esc => {
            &&& moved(
                App { vim_mode: VimMode::Normal, prev_mode: Some(VimMode::Insert), ..o },
                n,
                if c == o.msg@.len() && c > 0 { c - 1 } else { c },
            )
            &&& out.len() == 0
        },
        Key::Char(ch) => typed(o, n, ch) && out.len() == 0,
        Key::Backspace => erased(o, n) && out.len() == 0,
        Key::Left => moved(o, n, if c > 0 { c - 1 } else { 0 }) && out.len() == 0,
        Key::Right => moved(o, n, right_target(o.msg@, c, o.vim_mode)) && out.len() == 0,
        Key::Enter => {
            let line = o.msg@;
            &&& n.msg@.len() == 0
            &&& n.msg.cursor == 0
            &&& n == (App { msg: n.msg, channel_messages: n.channel_messages, ..o })
            &&& if line.len() > 0 {
                &&& n.channel_messages.view() == o.current_applied(
                    LogEdit::Append(user_line(nick, line)),
                )
                &&& out == seq![Intent::PrivMsg(line)]
            } else {
                n.channel_messages == o.channel_messages && out.len() == 0
            }
        },
        _ => n == o && out.len() == 0,
    }
}

pub open spec fn visual_key(o: App, n: App, key: Key) -> bool {
    match key {
        Key::Tab => tab_effect(o, n),
        Key::Esc => n.vis@.len() == 0 && n == (App {
            vim_mode: VimMode::Normal,
            prev_mode: Some(VimMode::Visual),
            vis: n.vis,
            sel_start: None,
            ..o
        }),
        Key::Left => visual_after(o, n, 'h'),
        Key::Right => visual_after(o, n, 'l'),
        Key::Char(c) => visual_after(o, n, c),
        _ => n == o,
    }
}

pub open spec fn command_key(o: App, n: App, out: Seq<Intent>, key: Key) -> bool {
    let c = o.cmd.cursor as int;
    match key {
        Key::Esc => {
            &&& n.cmd@.len() == 0
            &&& n.cmd.cursor == 0
            &&& n == (App { cmd: n.cmd, vim_mode: remembered(o.prev_mode), ..o })
            &&& out.len() == 0
        },
        Key::Char(ch) => cmd_typed(o, n, ch) && out.len() == 0,
        Key::Backspace => {
            &&& n == (App { cmd: n.cmd, ..o })
            &&& if c > 0 {
                n.cmd@ == o.cmd@.remove(c - 1) && n.cmd.cursor == c - 1
            } else {
                n.cmd == o.cmd
            }
            &&& out.len() == 0
        },
        Key::Left => cmd_moved(o, n, if c > 0 { c - 1 } else { 0 }) && out.len() == 0,
        Key::Right => cmd_moved(o, n, if c < o.cmd@.len() { c + 1 } else { c }) && out.len() == 0,
        Key::Enter => exists|mid: App, done: App|
            {
                &&& mid == (App { cmd: mid.cmd, ..o })
                &&& mid.cmd@.len() == 0
                &&& mid.cmd.cursor == 0
                &&& #[trigger] line_effect(mid, done, out, command_line(o.cmd@), o.cmd@, false)
                &&& n == (App { vim_mode: remembered(done.prev_mode), ..done })
            },
        _ => n == o && out.len() == 0,
    }
}

pub open spec fn server_key(o: App, n: App, out: Seq<Intent>, key: Key) -> bool {
    let i = o.server_tree_index as int;
    match key {
        Key::Tab => tab_effect(o, n) && out.len() == 0,
        Key::Esc => switched(o, n, VimMode::Normal, Some(VimMode::Server)) && out.len() == 0,
        Key::Char('c') => switched(o, n, VimMode::Clients, Some(VimMode::Server)) && out.len() == 0,
        Key::Char('q') => switched(o, n, VimMode::Normal, o.prev_mode) && out.len() == 0,
        Key::Char('m') => switched(o, n, VimMode::Messages, Some(VimMode::Server)) && out.len() == 0,
        Key::Char('i') => switched(o, n, VimMode::Insert, Some(VimMode::Server)) && out.len() == 0,
        Key::Char(':') => switched(o, n, VimMode::Command, Some(VimMode::Server)) && out.len() == 0,
        Key::Down => n == (App {
            server_tree_index: if i + 1 < o.server_tree@.len() {
                (i + 1) as usize
            } else {
                o.server_tree_index
            },
            ..o
        }) && out.len() == 0,
        Key::Up => n == (App {
            server_tree_index: if i > 0 {
                (i - 1) as usize
            } else {
                o.server_tree_index
            },
            ..o
        }) && out.len() == 0,
        Key::Enter => tree_entry_effect(o, n, out, i),
        _ => n == o && out.len() == 0,
    }
}

pub open spec fn messages_key(o: App, n: App, key: Key) -> bool {
    match key {
        Key::Tab => tab_effect(o, n),
        Key::Esc => switched(o, n, VimMode::Normal, Some(VimMode::Messages)),
        Key::Down => n.channel_messages.view() == o.current_applied(LogEdit::MoveDown) && n == (App {
            channel_messages: n.channel_messages,
            ..o
        }),
        Key::Up => n.channel_messages.view() == o.current_applied(LogEdit::MoveUp) && n == (App {
            channel_messages: n.channel_messages,
            ..o
        }),
        Key::Char(c) => messages_after(o, n, c),
        _ => n == o,
    }
}

pub open spec fn clients_key(o: App, n: App, out: Seq<Intent>, key: Key) -> bool {
    let i = o.client_index as int;
    match key {
        Key::Tab => tab_effect(o, n) && out.len() == 0,
        Key::Esc => switched(o, n, VimMode::Normal, Some(VimMode::Clients)) && out.len() == 0,
        Key::Down => n == (App {
            client_index: if i + 1 < o.clients@.len() {
                (i + 1) as usize
            } else {
                o.client_index
            },
            ..o
        }) && out.len() == 0,
        Key::Up => n == (App {
            client_index: if i > 0 {
                (i - 1) as usize
            } else {
                o.client_index
            },
            ..o
        }) && out.len() == 0,
        Key::Enter => exists|mid: App|
            {
                &&& #[trigger] client_join_effect(o, mid, out)
                &&& n.server_tree@ == tree_of(mid.servers@)
                &&& n.server_tree_index == clamp_index(
                    mid.server_tree_index as int,
                    tree_of(mid.servers@).len() as int,
                )
                &&& n == (App {
                    server_tree: n.server_tree,
                    server_tree_index: n.server_tree_index,
                    ..mid
                })
            },
        Key::Char(c) => clients_after(o, n, c) && out.len() == 0,
        _ => n == o && out.len() == 0,
    }
}

pub open spec fn vimless_key(o: App, n: App, out: Seq<Intent>, key: Key) -> bool {
    let c = o.msg.cursor as int;
    match key {
        Key::Enter => {
            &&& n.msg@.len() == 0
            &&& n.msg.cursor == 0
            &&& line_effect(App { msg: n.msg, ..o }, n, out, vimless_line(o.msg@), o.msg@, true)
        },
        Key::Char(ch) => typed(o, n, ch) && out.len() == 0,
        Key::Left => moved(o, n, if c > 0 { c - 1 } else { 0 }) && out.len() == 0,
        Key::Right => moved(o, n, right_target(o.msg@, c, o.vim_mode)) && out.len() == 0,
        Key::Backspace => erased(o, n) && out.len() == 0,
        Key::Up => moved(o, n, 0) && out.len() == 0,
        Key::Down => moved(o, n, o.msg@.len() as int) && out.len() == 0,
        _ => n == o && out.len() == 0,
    }
}

/// What a key press does, by mode; `nick` is the nick that local echoes
/// of sent messages carry.
pub open spec fn key_effect(o: App, n: App, out: Seq<Intent>, key: Key, nick: Seq<char>) -> bool {
    match o.vim_mode {
        VimMode::Normal => normal_key(o, n, key) && out.len() == 0,
        VimMode::Insert => insert_key(o, n, out, key, nick),
        VimMode::Visual => visual_key(o, n, key) && out.len() == 0,
        VimMode::Command => command_key(o, n, out, key),
        VimMode::Server => server_key(o, n, out, key),
        VimMode::Messages => messages_key(o, n, key) && out.len() == 0,
        VimMode::Clients => clients_key(o, n, out, key),
        VimMode::Vimless => vimless_key(o, n, out, key),
    }
}

fn tab(app: &mut App)
    requires
        old(app).wf(),
    ensures
        final(app).wf(),
        tab_effect(*old(app), *final(app)),
{
    if app.vim_mode == VimMode::Visual {
        app.sel_start = None;
    }
    app.rebuild_server_tree();
    app.cycle_mode();
}

pub fn handle_normal(key: Key, app: &mut App)
    requires
        old(app).wf(),
        old(app).vim_mode == VimMode::Normal,
    ensures
        final(app).wf(),
        normal_key(*old(app), *final(app), key),
{
    match key {
        Key::Tab => tab(app),
        Key::Char(':') => {
            app.vim_mode = VimMode::Command;
            app.prev_mode = Some(VimMode::Normal);
            app.clear_norm();
        },
        Key::Esc => app.clear_norm(),
        Key::Left | Key::Right | Key::Char(_) => {
            let c = match key {
                Key::Left => 'h',
                Key::Right => 'l',
                Key::Char(c) => c,
                _ => 'h',
            };
            app.push_norm_char(c);
            let ghost mid = *app;
            app.execute_normal();
            assert(normal_effect(mid, *app));
        },
        _ => {},
    }
}

pub fn handle_insert(key: Key, app: &mut App, nick: &str) -> (r: Vec<IrcCommand>)
    requires
        old(app).wf(),
        old(app).vim_mode == VimMode::Insert,
    ensures
        final(app).wf(),
        insert_key(*old(app), *final(app), intents(r@), key, nick@),
{
    match key {
        Key::Tab => tab(app),
        Key::Esc => {
            app.vim_mode = VimMode::Normal;
            app.prev_mode = Some(VimMode::Insert);
            if app.msg.cursor == app.msg.len() {
                app.move_msg_cursor_left();
            }
        },
        Key::Char(c) => app.insert_msg_char(c),
        Key::Backspace => app.delete_msg_char(),
        Key::Left => app.move_msg_cursor_left(),
        Key::Right => app.move_msg_cursor_right(),
        Key::Enter => {
            let line = app.take_msg_text();
            if line.as_str().is_empty() {
                return Vec::new();
            }
            app.push_user_msg_to_current(nick, line.as_str());
            let mut out: Vec<IrcCommand> = Vec::new();
            let ghost lv = line@;
            out.push(IrcCommand::PrivMsg(line));
            proof {
                assert(intents(out@) =~= seq![Intent::PrivMsg(lv)]);
            }
            return out;
        },
        _ => {},
    }
    Vec::new()
}

pub fn handle_visual(key: Key, app: &mut App)
    requires
        old(app).wf(),
        old(app).vim_mode == VimMode::Visual,
    ensures
        final(app).wf(),
        visual_key(*old(app), *final(app), key),
{
    match key {
        Key::Tab => tab(app),
        Key::Esc => {
            app.vim_mode = VimMode::Normal;
            app.prev_mode = Some(VimMode::Visual);
            app.clear_vis();
            app.sel_start = None;
        },
        Key::Left | Key::Right | Key::Char(_) => {
            let c = match key {
                Key::Left => 'h',
                Key::Right => 'l',
                Key::Char(c) => c,
                _ => 'h',
            };
            app.push_vis_char(c);
            let ghost mid = *app;
            app.execute_vis();
            assert(visual_effect(mid, *app));
        },
        _ => {},
    }
}

pub fn handle_command(key: Key, app: &mut App) -> (r: Vec<IrcCommand>)
    requires
        old(app).wf(),
        old(app).vim_mode == VimMode::Command,
    ensures
        final(app).wf(),
        command_key(*old(app), *final(app), intents(r@), key),
{
    match key {
        Key::Esc => {
            app.clear_cmd();
            app.return_to_prev_mode();
        },
        Key::Char(c) => app.insert_cmd_char(c),
        Key::Backspace => app.delete_cmd_char(),
        Key::Left => app.move_cmd_cursor_left(),
        Key::Right => app.move_cmd_cursor_right(),
        Key::Enter => {
            let ghost o = *app;
            let line = app.take_cmd_text();
            let ghost mid = *app;
            let out = app.execute_command(line.as_str());
            let ghost done = *app;
            app.return_to_prev_mode();
            assert(line_effect(mid, done, intents(out@), command_line(o.cmd@), o.cmd@, false));
            return out;
        },
        _ => {},
    }
    Vec::new()
}

pub fn handle_server(key: Key, app: &mut App) -> (r: Vec<IrcCommand>)
    requires
        old(app).wf(),
        old(app).vim_mode == VimMode::Server,
    ensures
        final(app).wf(),
        server_key(*old(app), *final(app), intents(r@), key),
{
    match key {
        Key::Tab => tab(app),
        Key::Esc => {
            app.vim_mode = VimMode::Normal;
            app.prev_mode = Some(VimMode::Server);
        },
        Key::Char('c') => {
            app.vim_mode = VimMode::Clients;
            app.prev_mode = Some(VimMode::Server);
        },
        Key::Char('q') => {
            app.vim_mode = VimMode::Normal;
        },
        Key::Char('m') => {
            app.vim_mode = VimMode::Messages;
            app.prev_mode = Some(VimMode::Server);
        },
        Key::Char('i') => {
            app.vim_mode = VimMode::Insert;
            app.prev_mode = Some(VimMode::Server);
        },
        Key::Char(':') => {
            app.vim_mode = VimMode::Command;
            app.prev_mode = Some(VimMode::Server);
        },
        Key::Down => app.move_server_selection_down(),
        Key::Up => app.move_server_selection_up(),
        Key::Enter => {
            let i = app.server_tree_index;
            return app.resolve_tree_entry(i);
        },
        _ => {},
    }
    Vec::new()
}

pub fn handle_messages(key: Key, app: &mut App)
    requires
        old(app).wf(),
        old(app).vim_mode == VimMode::Messages,
    ensures
        final(app).wf(),
        messages_key(*old(app), *final(app), key),
{
    match key {
        Key::Tab => tab(app),
        Key::Esc => {
            app.vim_mode = VimMode::Normal;
            app.prev_mode = Some(VimMode::Messages);
        },
        Key::Down => app.move_msg_down(),
        Key::Up => app.move_msg_up(),
        Key::Char(c) => {
            app.push_char_to_messages_cmd(c);
            let ghost mid = *app;
            app.execute_messages_cmd();
            assert(messages_effect(mid, *app));
        },
        _ => {},
    }
}

pub fn handle_clients(key: Key, app: &mut App) -> (r: Vec<IrcCommand>)
    requires
        old(app).wf(),
        old(app).vim_mode == VimMode::Clients,
    ensures
        final(app).wf(),
        clients_key(*old(app), *final(app), intents(r@), key),
{
    match key {
        Key::Tab => tab(app),
        Key::Esc => {
            app.vim_mode = VimMode::Normal;
            app.prev_mode = Some(VimMode::Clients);
        },
        Key::Down => app.move_client_selection_down(),
        Key::Up => app.move_client_selection_up(),
        Key::Enter => {
            let ghost o = *app;
            let out = app.join_selected_client_channel();
            let ghost mid = *app;
            app.rebuild_server_tree();
            assert(client_join_effect(o, mid, intents(out@)));
            return out;
        },
        Key::Char(c) => {
            app.push_char_to_clients_cmd(c);
            let ghost mid = *app;
            app.execute_clients_cmd();
            assert(clients_effect(mid, *app));
        },
        _ => {},
    }
    Vec::new()
}

pub fn handle_vimless(key: Key, app: &mut App) -> (r: Vec<IrcCommand>)
    requires
        old(app).wf(),
        old(app).vim_mode == VimMode::Vimless,
    ensures
        final(app).wf(),
        vimless_key(*old(app), *final(app), intents(r@), key),
{
    match key {
        Key::Enter => {
            return app.execute_vimless();
        },
        Key::Char(c) => app.insert_msg_char(c),
        Key::Left => app.move_msg_cursor_left(),
        Key::Right => app.move_msg_cursor_right(),
        Key::Backspace => app.delete_msg_char(),
        Key::Up => app.move_msg_cursor_to_start(),
        Key::Down => app.move_msg_cursor_to_end(),
        _ => {},
    }
    Vec::new()
}

/// Applies a key press to the session according to the current mode and
/// returns the intents for the protocol side; `nick` is the nick that local
/// echoes of sent messages carry.
pub fn handle_keyboard_event(key: Key, app: &mut App, nick: &str) -> (r: Vec<IrcCommand>)
    requires
        old(app).wf(),
    ensures
        final(app).wf(),
        key_effect(*old(app), *final(app), intents(r@), key, nick@),
{
    match app.vim_mode {
        VimMode::Normal => {
            handle_normal(key, app);
            Vec::new()
        },
        VimMode::Insert => handle_insert(key, app, nick),
        VimMode::Visual => {
            handle_visual(key, app);
            Vec::new()
        },
        VimMode::Command => handle_command(key, app),
        VimMode::Server => handle_server(key, app),
        VimMode::Messages => {
            handle_messages(key, app);
            Vec::new()
        },
        VimMode::Clients => handle_clients(key, app),
        VimMode::Vimless => handle_vimless(key, app),
    }
}

} // verus!
