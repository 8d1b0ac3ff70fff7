use vstd::prelude::*;
use crate::app::{App, VimMode};
use crate::irc::{intents, Intent, IrcCommand};
use crate::resolve::{client_join_effect, tree_entry_effect};
use crate::store::LogEdit;
use crate::tree::{clamp_index, tree_of, ServerInfo};

verus! {

/// Remembers the last left click to tell double clicks apart.
pub struct ClickState {
    /// when the last click happened, in milliseconds
    pub last_click_time: Option<u64>,
    pub last_click_pos: Option<(u16, u16)>,
    /// the longest gap between the two clicks of a double click, in milliseconds
    pub double_click_threshold: u64,
}

/// Whether a click at `(x, y)` at time `now` completes a double click.
pub open spec fn is_double(c: ClickState, x: u16, y: u16, now: u64) -> bool {
    match (c.last_click_time, c.last_click_pos) {
        (Some(t), Some(p)) => (if now >= t { now - t } else { 0 }) <= c.double_click_threshold && p
            == (x, y),
        _ => false,
    }
}

impl ClickState {
    /// No click seen yet; double clicks within 500 ms.
    pub fn new() -> (r: ClickState)
        ensures
            r.last_click_time is None,
            r.last_click_pos is None,
            r.double_click_threshold == 500,
    {
        ClickState { last_click_time: None, last_click_pos: None, double_click_threshold: 500 }
    }

    /// Records a click at `(x, y)` at time `now` (milliseconds) and tells
    /// whether it is the second click of a double click: same place, within
    /// the threshold of the previous one.
    pub fn is_double_click(&mut self, x: u16, y: u16, now: u64) -> (r: bool)
        ensures
            r == is_double(*old(self), x, y, now),
            final(self).last_click_time == Some(now),
            final(self).last_click_pos == Some((x, y)),
            final(self).double_click_threshold == old(self).double_click_threshold,
    {
        let double = match (self.last_click_time, self.last_click_pos) {
            (Some(t), Some((lx, ly))) => now.saturating_sub(t) <= self.double_click_threshold && lx
                == x && ly == y,
            _ => false,
        };
        self.last_click_time = Some(now);
        self.last_click_pos = Some((x, y));
        double
    }
}

/// What the mouse reports.
#[derive(Clone, Copy, PartialEq, Eq, Structural)]
pub enum MouseKind {
    LeftDown,
    ScrollUp,
    ScrollDown,
    Other,
}

/// A mouse event at a terminal cell.
#[derive(Clone, Copy, PartialEq, Eq, Structural)]
pub struct MouseEvent {
    pub kind: MouseKind,
    pub column: u16,
    pub row: u16,
}

/// The length in bytes of a name, as `str::len` reports it.
pub open spec fn name_width(s: Seq<char>) -> nat {
    (vstd::utf8::encode_utf8(s).len() as usize) as nat
}

/// The longest name, in bytes, of the servers from `i` on and their channels.
pub open spec fn widest_from(s: Seq<ServerInfo>, i: int) -> nat
    decreases s.len() - i,
{
    if i < 0 || i >= s.len() {
        0
    } else {
        let here = max_nat(name_width(s[i].name@), widest_channel(s[i], 0));
        max_nat(here, widest_from(s, i + 1))
    }
}

/// The longest name, in bytes, of the channels of `s` from `j` on.
pub open spec fn widest_channel(s: ServerInfo, j: int) -> nat
    decreases s.channels@.len() - j,
{
    if j < 0 || j >= s.channels@.len() {
        0
    } else {
        max_nat(name_width(s.channels@[j].name@), widest_channel(s, j + 1))
    }
}

pub open spec fn max_nat(a: nat, b: nat) -> nat {
    if a >= b {
        a
    } else {
        b
    }
}

/// Width of the tree pane: the widest name plus 10 columns, at most the
/// terminal's limit.
pub open spec fn tree_width(s: Seq<ServerInfo>) -> u16 {
    let w = widest_from(s, 0);
    if w > 65525 {
        65535
    } else {
        (w + 10) as u16
    }
}

pub open spec fn sat(a: int, b: int) -> int {
    if a > b {
        a - b
    } else {
        0
    }
}

/// Only the current log stepped by `op`.
pub open spec fn log_only(o: App, n: App, op: LogEdit) -> bool {
    n.channel_messages.view() == o.current_applied(op) && n == (App {
        channel_messages: n.channel_messages,
        ..o
    })
}

/// A click on message row `y` in the message pane: Messages mode, that
/// record selected.
pub open spec fn message_row_clicked(o: App, n: App, y: int) -> bool {
    log_only(App { vim_mode: VimMode::Messages, ..o }, n, LogEdit::JumpTo(sat(y, 1) as nat))
}

/// Participant selection after clicking participant row `i`.
pub open spec fn client_row_clicked(o: App, n: App, i: int) -> bool {
    n == (App {
        client_index: if i < o.clients@.len() {
            i as usize
        } else {
            o.client_index
        },
        ..o
    })
}

/// Enter on the selected participant, then a tree rebuild.
pub open spec fn client_joined(o: App, n: App, out: Seq<Intent>) -> bool {
    exists|mid: App|
        {
            &&& #[trigger] client_join_effect(o, mid, out)
            &&& n.server_tree@ == tree_of(mid.servers@)
            &&& n.server_tree_index == clamp_index(
                mid.server_tree_index as int,
                tree_of(mid.servers@).len() as int,
            )
            &&& n == (App { server_tree: n.server_tree, server_tree_index: n.server_tree_index, ..mid })
        }
}

/// What a left click does, by mode, in a terminal of `h` rows and `w`
/// columns; `double` says whether it completes a double click.
pub open spec fn left_click_effect(
    o: App,
    n: App,
    out: Seq<Intent>,
    x: int,
    y: int,
    h: int,
    w: int,
    double: bool,
) -> bool {
    let input_y = sat(h, 4);
    let tw = tree_width(o.servers@) as int;
    match o.vim_mode {
        VimMode::Normal | VimMode::Insert => out.len() == 0 && if y <= input_y {
            message_row_clicked(o, n, y)
        } else {
            n == o
        },
        VimMode::Messages => out.len() == 0 && if y <= input_y {
            log_only(o, n, LogEdit::JumpTo(sat(y, 1) as nat))
        } else {
            switched_to(o, n, VimMode::Normal, VimMode::Messages)
        },
        VimMode::Clients => {
            let x_end = sat(w, 16);
            if x <= x_end && y <= input_y {
                message_row_clicked(o, n, y) && out.len() == 0
            } else if x > x_end && y <= input_y {
                if double {
                    client_joined(o, n, out)
                } else {
                    client_row_clicked(o, n, sat(y, 1)) && out.len() == 0
                }
            } else {
                switched_to(o, n, VimMode::Normal, VimMode::Clients) && out.len() == 0
            }
        },
        VimMode::Server => {
            if x > 0 && x <= tw && y > 0 {
                let idx = y - 1;
                if idx < o.server_tree@.len() {
                    let sel = App { server_tree_index: idx as usize, ..o };
                    if double {
                        tree_entry_effect(sel, n, out, idx)
                    } else {
                        n == sel && out.len() == 0
                    }
                } else {
                    n == o && out.len() == 0
                }
            } else if x >= tw && y >= 1 && y < input_y {
                message_row_clicked(o, n, y) && out.len() == 0
            } else if y >= input_y {
                n == (App { vim_mode: VimMode::Normal, ..o }) && out.len() == 0
            } else {
                n == o && out.len() == 0
            }
        },
        VimMode::Vimless => {
            let x_end = sat(w, 16);
            if x >= x_end && y >= 1 && y < input_y {
                client_joined(o, n, out)
            } else if x > tw && x < x_end && y < input_y {
                out.len() == 0 && yanked_record(o, n, sat(y, 1))
            } else if x <= tw && y < input_y {
                tree_entry_effect(o, n, out, sat(y, 1))
            } else {
                n == o && out.len() == 0
            }
        },
        _ => n == o && out.len() == 0,
    }
}

/// Mode switched to `m`, remembering `p`.
pub open spec fn switched_to(o: App, n: App, m: VimMode, p: VimMode) -> bool {
    n == (App { vim_mode: m, prev_mode: Some(p), ..o })
}

/// The text of record `i` of the current log yanked, when it exists.
pub open spec fn yanked_record(o: App, n: App, i: int) -> bool {
    let found = o.current_key() matches Some(k) && o.channel_messages.view().dom().contains(k)
        && i < o.channel_messages.view()[k].messages.len();
    &&& n == (App { yank: n.yank, ..o })
    &&& if found {
        n.yank@ == o.channel_messages.view()[o.current_key().unwrap()].messages[i].text
    } else {
        n.yank == o.yank
    }
}

/// What a wheel step does: the selection of the mode's list moves.
pub open spec fn scroll_effect(o: App, n: App, up: bool) -> bool {
    match o.vim_mode {
        VimMode::Messages => log_only(o, n, if up { LogEdit::MoveUp } else { LogEdit::MoveDown }),
        VimMode::Clients => {
            let i = o.client_index as int;
            n == (App {
                client_index: if up {
                    if i > 0 { (i - 1) as usize } else { o.client_index }
                } else {
                    if i + 1 < o.clients@.len() { (i + 1) as usize } else { o.client_index }
                },
                ..o
            })
        },
        VimMode::Server => {
            let i = o.server_tree_index as int;
            n == (App {
                server_tree_index: if up {
                    if i > 0 { (i - 1) as usize } else { o.server_tree_index }
                } else {
                    if i + 1 < o.server_tree@.len() { (i + 1) as usize } else { o.server_tree_index }
                },
                ..o
            })
        },
        _ => n == o,
    }
}

fn widest(servers: &Vec<ServerInfo>) -> (r: usize)
    ensures
        r == widest_from(servers@, 0),
{
    let mut best: usize = 0;
    let mut i: usize = servers.len();
    while i > 0
        invariant
            i <= servers@.len(),
            best == widest_from(servers@, i as int),
        decreases i,
    {
        i = i - 1;
        let s = &servers[i];
        let mut here: usize = 0;
        let mut j: usize = s.channels.len();
        while j > 0
            invariant
                j <= s.channels@.len(),
                here == widest_channel(*s, j as int),
            decreases j,
        {
            j = j - 1;
            let l = s.channels[j].name.as_str().len();
            if l > here {
                here = l;
            }
        }
        let n = s.name.as_str().len();
        if n > here {
            here = n;
        }
        if here > best {
            best = here;
        }
    }
    best
}

fn pane_width(servers: &Vec<ServerInfo>) -> (r: u16)
    ensures
        r == tree_width(servers@),
{
    let w = widest(servers);
    if w > 65525 {
        65535
    } else {
        (w + 10) as u16
    }
}

/// Whether a left click in this mode and place asks the double-click
/// detector.
pub open spec fn consults_clicks(o: App, x: int, y: int) -> bool {
    match o.vim_mode {
        VimMode::Clients => true,
        VimMode::Server => x > 0 && x <= tree_width(o.servers@) as int && y > 0 && y - 1
            < o.server_tree@.len(),
        _ => false,
    }
}

/// What a mouse event does.
pub open spec fn mouse_effect(
    o: App,
    n: App,
    out: Seq<Intent>,
    m: MouseEvent,
    oc: ClickState,
    nc: ClickState,
    h: int,
    w: int,
    now: u64,
) -> bool {
    match m.kind {
        MouseKind::LeftDown => {
            &&& left_click_effect(
                o,
                n,
                out,
                m.column as int,
                m.row as int,
                h,
                w,
                is_double(oc, m.column, m.row, now),
            )
            &&& if consults_clicks(o, m.column as int, m.row as int) {
                nc == (ClickState {
                    last_click_time: Some(now),
                    last_click_pos: Some((m.column, m.row)),
                    ..oc
                })
            } else {
                nc == oc
            }
        },
        MouseKind::ScrollUp => scroll_effect(o, n, true) && out.len() == 0 && nc == oc,
        MouseKind::ScrollDown => scroll_effect(o, n, false) && out.len() == 0 && nc == oc,
        MouseKind::Other => n == o && out.len() == 0 && nc == oc,
    }
}

fn click_message_row(app: &mut App, y: u16)
    requires
        old(app).wf(),
    ensures
        final(app).wf(),
        message_row_clicked(*old(app), *final(app), y as int),
{
    app.vim_mode = VimMode::Messages;
    app.move_msg_to_index(y.saturating_sub(1) as usize);
}

fn join_client(app: &mut App) -> (r: Vec<IrcCommand>)
    requires
        old(app).wf(),
    ensures
        final(app).wf(),
        client_joined(*old(app), *final(app), intents(r@)),
{
    let ghost o = *app;
    let out = app.join_selected_client_channel();
    let ghost mid = *app;
    app.rebuild_server_tree();
    assert(client_join_effect(o, mid, intents(out@)));
    out
}

/// The left-click contract shared by the per-mode click handlers.
pub open spec fn left_clicked(
    o: App,
    n: App,
    out: Seq<Intent>,
    oc: ClickState,
    nc: ClickState,
    x: u16,
    y: u16,
    h: u16,
    w: u16,
    now: u64,
) -> bool {
    mouse_effect(
        o,
        n,
        out,
        MouseEvent { kind: MouseKind::LeftDown, column: x, row: y },
        oc,
        nc,
        h as int,
        w as int,
        now,
    )
}

fn handle_normal_insert_click(app: &mut App, y: u16, terminal_height: u16)
    requires
        old(app).wf(),
        old(app).vim_mode == VimMode::Normal || old(app).vim_mode == VimMode::Insert,
    ensures
        final(app).wf(),
        y <= sat(terminal_height as int, 4) ==> message_row_clicked(*old(app), *final(app), y as int),
        y > sat(terminal_height as int, 4) ==> *final(app) == *old(app),
{
    let input_y = terminal_height.saturating_sub(4);
    if y <= input_y {
        click_message_row(app, y);
    }
}

fn handle_messages_click(app: &mut App, y: u16, terminal_height: u16)
    requires
        old(app).wf(),
        old(app).vim_mode == VimMode::Messages,
    ensures
        final(app).wf(),
        y <= sat(terminal_height as int, 4) ==> log_only(*old(app), *final(app), LogEdit::JumpTo(sat(y as int, 1) as nat)),
        y > sat(terminal_height as int, 4) ==> switched_to(*old(app), *final(app), VimMode::Normal, VimMode::Messages),
{
    let input_y = terminal_height.saturating_sub(4);
    if y <= input_y {
        app.move_msg_to_index(y.saturating_sub(1) as usize);
    } else {
        app.vim_mode = VimMode::Normal;
        app.prev_mode = Some(VimMode::Messages);
    }
}

fn handle_clients_click(
    app: &mut App,
    x: u16,
    y: u16,
    terminal_height: u16,
    terminal_width: u16,
    click_state: &mut ClickState,
    now: u64,
) -> (r: Vec<IrcCommand>)
    requires
        old(app).wf(),
        old(app).vim_mode == VimMode::Clients,
    ensures
        final(app).wf(),
        left_clicked(*old(app), *final(app), intents(r@), *old(click_state), *final(click_state), x, y, terminal_height, terminal_width, now),
{
    let input_y = terminal_height.saturating_sub(4);
    let x_end = terminal_width.saturating_sub(16);
    let double = click_state.is_double_click(x, y, now);
    if x <= x_end && y <= input_y {
        click_message_row(app, y);
        Vec::new()
    } else if x > x_end && y <= input_y {
        if double {
            join_client(app)
        } else {
            app.move_client_to_index(y.saturating_sub(1) as usize);
            Vec::new()
        }
    } else {
        app.vim_mode = VimMode::Normal;
        app.prev_mode = Some(VimMode::Clients);
        Vec::new()
    }
}

fn handle_server_click(
    app: &mut App,
    x: u16,
    y: u16,
    click_state: &mut ClickState,
    terminal_height: u16,
    terminal_width: u16,
    now: u64,
) -> (r: Vec<IrcCommand>)
    requires
        old(app).wf(),
        old(app).vim_mode == VimMode::Server,
    ensures
        final(app).wf(),
        left_clicked(*old(app), *final(app), intents(r@), *old(click_state), *final(click_state), x, y, terminal_height, terminal_width, now),
{
    let input_y = terminal_height.saturating_sub(4);
    let tw = pane_width(&app.servers);
    if x > 0 && x <= tw && y > 0 {
        let idx = (y - 1) as usize;
        if idx < app.server_tree.len() {
            let double = click_state.is_double_click(x, y, now);
            app.server_tree_index = idx;
            if double {
                return app.resolve_tree_entry(idx);
            }
        }
        Vec::new()
    } else if x >= tw && y >= 1 && y < input_y {
        click_message_row(app, y);
        Vec::new()
    } else if y >= input_y {
        app.vim_mode = VimMode::Normal;
        Vec::new()
    } else {
        Vec::new()
    }
}

fn handle_vimless_click(
    app: &mut App,
    x: u16,
    y: u16,
    terminal_height: u16,
    terminal_width: u16,
) -> (r: Vec<IrcCommand>)
    requires
        old(app).wf(),
        old(app).vim_mode == VimMode::Vimless,
    ensures
        final(app).wf(),
        forall|c: ClickState, now: u64|
            #![auto]
            left_clicked(*old(app), *final(app), intents(r@), c, c, x, y, terminal_height, terminal_width, now),
{
    let input_y = terminal_height.saturating_sub(4);
    let tw = pane_width(&app.servers);
    let x_end = terminal_width.saturating_sub(16);
    if x >= x_end && y >= 1 && y < input_y {
        join_client(app)
    } else if x > tw && x < x_end && y < input_y {
        app.yank_msg_at_index(y.saturating_sub(1) as usize);
        Vec::new()
    } else if x <= tw && y < input_y {
        app.resolve_tree_entry(y.saturating_sub(1) as usize)
    } else {
        Vec::new()
    }
}

fn handle_left_click(
    app: &mut App,
    x: u16,
    y: u16,
    click_state: &mut ClickState,
    terminal_height: u16,
    terminal_width: u16,
    now: u64,
) -> (r: Vec<IrcCommand>)
    requires
        old(app).wf(),
    ensures
        final(app).wf(),
        left_clicked(*old(app), *final(app), intents(r@), *old(click_state), *final(click_state), x, y, terminal_height, terminal_width, now),
{
    match app.vim_mode {
        VimMode::Normal | VimMode::Insert => {
            handle_normal_insert_click(app, y, terminal_height);
            Vec::new()
        },
        VimMode::Messages => {
            handle_messages_click(app, y, terminal_height);
            Vec::new()
        },
        VimMode::Clients => handle_clients_click(app, x, y, terminal_height, terminal_width, click_state, now),
        VimMode::Server => handle_server_click(app, x, y, click_state, terminal_height, terminal_width, now),
        VimMode::Vimless => {
            let r = handle_vimless_click(app, x, y, terminal_height, terminal_width);
            assert(left_clicked(*old(app), *app, intents(r@), *click_state, *click_state, x, y, terminal_height, terminal_width, now));
            r
        },
        _ => Vec::new(),
    }
}

fn handle_scroll_up(app: &mut App)
    requires
        old(app).wf(),
    ensures
        final(app).wf(),
        scroll_effect(*old(app), *final(app), true),
{
    match app.vim_mode {
        VimMode::Messages => app.move_msg_up(),
        VimMode::Clients => app.move_client_selection_up(),
        VimMode::Server => app.move_server_selection_up(),
        _ => {},
    }
}

fn handle_scroll_down(app: &mut App)
    requires
        old(app).wf(),
    ensures
        final(app).wf(),
        scroll_effect(*old(app), *final(app), false),
{
    match app.vim_mode {
        VimMode::Messages => app.move_msg_down(),
        VimMode::Clients => app.move_client_selection_down(),
        VimMode::Server => app.move_server_selection_down(),
        _ => {},
    }
}

/// Applies a mouse event in a terminal of the given size; `now` is the time
/// of the event in milliseconds, for double clicks.
pub fn handle_mouse_event(
    app: &mut App,
    mouse: MouseEvent,
    click_state: &mut ClickState,
    terminal_height: u16,
    terminal_width: u16,
    now: u64,
) -> (r: Vec<IrcCommand>)
    requires
        old(app).wf(),
    ensures
        final(app).wf(),
        mouse_effect(
            *old(app),
            *final(app),
            intents(r@),
            mouse,
            *old(click_state),
            *final(click_state),
            terminal_height as int,
            terminal_width as int,
            now,
        ),
{
    match mouse.kind {
        MouseKind::LeftDown => handle_left_click(
            app,
            mouse.column,
            mouse.row,
            click_state,
            terminal_height,
            terminal_width,
            now,
        ),
        MouseKind::ScrollUp => {
            handle_scroll_up(app);
            Vec::new()
        },
        MouseKind::ScrollDown => {
            handle_scroll_down(app);
            Vec::new()
        },
        MouseKind::Other => Vec::new(),
    }
}

} // verus!
