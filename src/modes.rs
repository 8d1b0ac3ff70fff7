use vstd::prelude::*;
use crate::app::{App, VimMode};
use crate::editing::{inner_word_deleted, landing, right_target, spliced};
use crate::motion::{back_target, end_target, forward_target, selection};
use crate::store::LogEdit;
use crate::tree::tree_of;

verus! {

/// The Normal-mode command table.
#[derive(Clone, Copy, PartialEq, Eq, Structural)]
pub enum NormalCommand {
    /// `dd`
    ClearLine,
    /// `gg`
    GotoStart,
    /// `diw`
    DeleteInnerWord,
    /// `G`
    GotoEnd,
    /// `C`
    ClearLog,
    /// `a`
    Append,
    /// `b`
    BackWord,
    /// `B`
    BackBigWord,
    /// `w`
    ForwardWord,
    /// `W`
    ForwardBigWord,
    /// `e`
    EndWord,
    /// `E`
    EndBigWord,
    /// `A`
    AppendAtEnd,
    /// `q`
    Quit,
    /// `h`
    Left,
    /// `l`
    Right,
    /// `p`
    Paste,
    /// `s`
    ServerMode,
    /// `v`
    VisualMode,
    /// `i`
    InsertMode,
    /// `m`
    MessagesMode,
    /// `c`
    ClientsMode,
}

/// The command that a pending Normal-mode key sequence names, if any.
pub open spec fn normal_command(p: Seq<char>) -> Option<NormalCommand> {
    if p.len() == 2 && p[0] == 'd' && p[1] == 'd' {
        Some(NormalCommand::ClearLine)
    } else if p.len() == 2 && p[0] == 'g' && p[1] == 'g' {
        Some(NormalCommand::GotoStart)
    } else if p.len() == 3 && p[0] == 'd' && p[1] == 'i' && p[2] == 'w' {
        Some(NormalCommand::DeleteInnerWord)
    } else if p.len() == 1 && p[0] == 'G' {
        Some(NormalCommand::GotoEnd)
    } else if p.len() == 1 && p[0] == 'C' {
        Some(NormalCommand::ClearLog)
    } else if p.len() == 1 && p[0] == 'a' {
        Some(NormalCommand::Append)
    } else if p.len() == 1 && p[0] == 'b' {
        Some(NormalCommand::BackWord)
    } else if p.len() == 1 && p[0] == 'B' {
        Some(NormalCommand::BackBigWord)
    } else if p.len() == 1 && p[0] == 'w' {
        Some(NormalCommand::ForwardWord)
    } else if p.len() == 1 && p[0] == 'W' {
        Some(NormalCommand::ForwardBigWord)
    } else if p.len() == 1 && p[0] == 'e' {
        Some(NormalCommand::EndWord)
    } else if p.len() == 1 && p[0] == 'E' {
        Some(NormalCommand::EndBigWord)
    } else if p.len() == 1 && p[0] == 'A' {
        Some(NormalCommand::AppendAtEnd)
    } else if p.len() == 1 && p[0] == 'q' {
        Some(NormalCommand::Quit)
    } else if p.len() == 1 && p[0] == 'h' {
        Some(NormalCommand::Left)
    } else if p.len() == 1 && p[0] == 'l' {
        Some(NormalCommand::Right)
    } else if p.len() == 1 && p[0] == 'p' {
        Some(NormalCommand::Paste)
    } else if p.len() == 1 && p[0] == 's' {
        Some(NormalCommand::ServerMode)
    } else if p.len() == 1 && p[0] == 'v' {
        Some(NormalCommand::VisualMode)
    } else if p.len() == 1 && p[0] == 'i' {
        Some(NormalCommand::InsertMode)
    } else if p.len() == 1 && p[0] == 'm' {
        Some(NormalCommand::MessagesMode)
    } else if p.len() == 1 && p[0] == 'c' {
        Some(NormalCommand::ClientsMode)
    } else {
        None
    }
}

fn is1(p: &Vec<char>, a: char) -> (r: bool)
    ensures
        r == (p@.len() == 1 && p@[0] == a),
{
    p.len() == 1 && p[0] == a
}

fn is2(p: &Vec<char>, a: char, b: char) -> (r: bool)
    ensures
        r == (p@.len() == 2 && p@[0] == a && p@[1] == b),
{
    p.len() == 2 && p[0] == a && p[1] == b
}

fn is3(p: &Vec<char>, a: char, b: char, c: char) -> (r: bool)
    ensures
        r == (p@.len() == 3 && p@[0] == a && p@[1] == b && p@[2] == c),
{
    p.len() == 3 && p[0] == a && p[1] == b && p[2] == c
}

/// Looks a pending Normal-mode key sequence up in the command table.
pub fn parse_normal(p: &Vec<char>) -> (r: Option<NormalCommand>)
    ensures
        r == normal_command(p@),
{
    if is2(p, 'd', 'd') {
        Some(NormalCommand::ClearLine)
    } else if is2(p, 'g', 'g') {
        Some(NormalCommand::GotoStart)
    } else if is3(p, 'd', 'i', 'w') {
        Some(NormalCommand::DeleteInnerWord)
    } else if is1(p, 'G') {
        Some(NormalCommand::GotoEnd)
    } else if is1(p, 'C') {
        Some(NormalCommand::ClearLog)
    } else if is1(p, 'a') {
        Some(NormalCommand::Append)
    } else if is1(p, 'b') {
        Some(NormalCommand::BackWord)
    } else if is1(p, 'B') {
        Some(NormalCommand::BackBigWord)
    } else if is1(p, 'w') {
        Some(NormalCommand::ForwardWord)
    } else if is1(p, 'W') {
        Some(NormalCommand::ForwardBigWord)
    } else if is1(p, 'e') {
        Some(NormalCommand::EndWord)
    } else if is1(p, 'E') {
        Some(NormalCommand::EndBigWord)
    } else if is1(p, 'A') {
        Some(NormalCommand::AppendAtEnd)
    } else if is1(p, 'q') {
        Some(NormalCommand::Quit)
    } else if is1(p, 'h') {
        Some(NormalCommand::Left)
    } else if is1(p, 'l') {
        Some(NormalCommand::Right)
    } else if is1(p, 'p') {
        Some(NormalCommand::Paste)
    } else if is1(p, 's') {
        Some(NormalCommand::ServerMode)
    } else if is1(p, 'v') {
        Some(NormalCommand::VisualMode)
    } else if is1(p, 'i') {
        Some(NormalCommand::InsertMode)
    } else if is1(p, 'm') {
        Some(NormalCommand::MessagesMode)
    } else if is1(p, 'c') {
        Some(NormalCommand::ClientsMode)
    } else {
        None
    }
}

/// Only the compose cursor moved, to `c`, and the pending command is gone.
pub open spec fn cursor_moved(o: App, n: App, c: int) -> bool {
    &&& n.msg@ == o.msg@
    &&& n.msg.cursor == c
    &&& n.norm@.len() == 0
    &&& n == (App { msg: n.msg, norm: n.norm, ..o })
}

/// Only the mode changed, remembering Normal, and the pending command is gone.
pub open spec fn entered_from_normal(o: App, n: App, m: VimMode) -> bool {
    &&& n.norm@.len() == 0
    &&& n == (App { vim_mode: m, prev_mode: Some(VimMode::Normal), norm: n.norm, ..o })
}

/// What running the pending Normal-mode command does.
pub open spec fn normal_effect(o: App, n: App) -> bool {
    let s = o.msg@;
    let c = o.msg.cursor as int;
    match normal_command(o.norm@) {
        None => n == o,
        Some(NormalCommand::ClearLine) => {
            &&& n.msg@.len() == 0 && n.msg.cursor == 0 && n.norm@.len() == 0
            &&& n == (App { msg: n.msg, norm: n.norm, ..o })
        },
        Some(NormalCommand::GotoStart) => cursor_moved(o, n, 0),
        Some(NormalCommand::DeleteInnerWord) => {
            let mid = App { norm: n.norm, ..o };
            n.norm@.len() == 0 && inner_word_deleted(mid, n)
        },
        Some(NormalCommand::GotoEnd) => cursor_moved(o, n, s.len() as int),
        Some(NormalCommand::ClearLog) => {
            &&& n.channel_messages.view() == o.current_applied(LogEdit::Clear)
            &&& n.norm@.len() == 0
            &&& n == (App { channel_messages: n.channel_messages, norm: n.norm, ..o })
        },
        Some(NormalCommand::Append) => entered_from_normal(o, n, VimMode::Insert),
        Some(NormalCommand::InsertMode) => entered_from_normal(o, n, VimMode::Insert),
        Some(NormalCommand::BackWord) => cursor_moved(o, n, back_target(s, c, false)),
        Some(NormalCommand::BackBigWord) => cursor_moved(o, n, back_target(s, c, true)),
        Some(NormalCommand::ForwardWord) => cursor_moved(o, n, forward_target(s, c, false)),
        Some(NormalCommand::ForwardBigWord) => cursor_moved(o, n, forward_target(s, c, true)),
        Some(NormalCommand::EndWord) => cursor_moved(o, n, end_target(s, c, false)),
        Some(NormalCommand::EndBigWord) => cursor_moved(o, n, end_target(s, c, true)),
        Some(NormalCommand::AppendAtEnd) => {
            &&& n.msg@ == s && n.msg.cursor == s.len() && n.norm@.len() == 0
            &&& n == (App {
                msg: n.msg,
                norm: n.norm,
                vim_mode: VimMode::Insert,
                prev_mode: Some(VimMode::Normal),
                ..o
            })
        },
        Some(NormalCommand::Quit) => n == (App { should_quit: true, ..o }),
        Some(NormalCommand::Left) => cursor_moved(o, n, if c > 0 { c - 1 } else { 0 }),
        Some(NormalCommand::Right) => cursor_moved(o, n, right_target(s, c, o.vim_mode)),
        Some(NormalCommand::Paste) => {
            &&& n.norm@.len() == 0
            &&& n == (App { msg: n.msg, norm: n.norm, ..o })
            &&& if s.len() + o.yank@.len() + 1 < usize::MAX {
                n.msg@ == spliced(s, c, o.yank@) && n.msg.cursor == c + o.yank@.len()
            } else {
                n.msg == o.msg
            }
        },
        Some(NormalCommand::ServerMode) => {
            &&& n.norm@.len() == 0
            &&& n.server_tree@ == tree_of(o.servers@)
            &&& n == (App {
                vim_mode: VimMode::Server,
                prev_mode: Some(VimMode::Normal),
                norm: n.norm,
                server_tree: n.server_tree,
                server_tree_index: 0,
                ..o
            })
        },
        Some(NormalCommand::VisualMode) => {
            &&& n.norm@.len() == 0
            &&& n == (App {
                vim_mode: VimMode::Visual,
                prev_mode: Some(VimMode::Normal),
                sel_start: Some(o.msg.cursor),
                norm: n.norm,
                ..o
            })
        },
        Some(NormalCommand::MessagesMode) => entered_from_normal(o, n, VimMode::Messages),
        Some(NormalCommand::ClientsMode) => entered_from_normal(o, n, VimMode::Clients),
    }
}

impl App {
    /// Runs the pending Normal-mode command when the table names one; an
    /// unknown sequence is kept as a growing prefix.
    pub fn execute_normal(&mut self)
        requires
            old(self).wf(),
        ensures
            final(self).wf(),
            normal_effect(*old(self), *final(self)),
    {
        let keys = crate::chars::chars_of(self.norm.as_str());
        let cmd = parse_normal(&keys);
        match cmd {
            None => {},
            Some(NormalCommand::ClearLine) => {
                self.clear_msg();
                self.clear_norm();
            },
            Some(NormalCommand::GotoStart) => {
                self.move_msg_cursor_to_start();
                self.clear_norm();
            },
            Some(NormalCommand::DeleteInnerWord) => {
                self.clear_norm();
                self.delete_inner_word_msg();
            },
            Some(NormalCommand::GotoEnd) => {
                self.move_msg_cursor_to_end();
                self.clear_norm();
            },
            Some(NormalCommand::ClearLog) => {
                self.clear_messages();
                self.clear_norm();
            },
            Some(NormalCommand::Append) | Some(NormalCommand::InsertMode) => {
                self.vim_mode = VimMode::Insert;
                self.prev_mode = Some(VimMode::Normal);
                self.clear_norm();
            },
            Some(NormalCommand::BackWord) => {
                self.move_msg_cursor_back_word();
                self.clear_norm();
            },
            Some(NormalCommand::BackBigWord) => {
                self.move_msg_cursor_back_word_uppercase();
                self.clear_norm();
            },
            Some(NormalCommand::ForwardWord) => {
                self.move_msg_cursor_forward_word();
                self.clear_norm();
            },
            Some(NormalCommand::ForwardBigWord) => {
                self.move_msg_cursor_forward_word_uppercase();
                self.clear_norm();
            },
            Some(NormalCommand::EndWord) => {
                self.move_msg_cursor_end_of_word();
                self.clear_norm();
            },
            Some(NormalCommand::EndBigWord) => {
                self.move_msg_cursor_end_of_word_uppercase();
                self.clear_norm();
            },
            Some(NormalCommand::AppendAtEnd) => {
                self.move_msg_cursor_to_end();
                self.vim_mode = VimMode::Insert;
                self.prev_mode = Some(VimMode::Normal);
                self.clear_norm();
            },
            Some(NormalCommand::Quit) => {
                self.should_quit = true;
            },
            Some(NormalCommand::Left) => {
                self.move_msg_cursor_left();
                self.clear_norm();
            },
            Some(NormalCommand::Right) => {
                self.move_msg_cursor_right();
                self.clear_norm();
            },
            Some(NormalCommand::Paste) => {
                let y = self.yank.clone();
                self.insert_msg_str(y.as_str());
                self.clear_norm();
            },
            Some(NormalCommand::ServerMode) => {
                self.vim_mode = VimMode::Server;
                self.prev_mode = Some(VimMode::Normal);
                self.rebuild_server_tree();
                self.server_tree_index = 0;
                self.clear_norm();
            },
            Some(NormalCommand::VisualMode) => {
                self.vim_mode = VimMode::Visual;
                self.prev_mode = Some(VimMode::Normal);
                self.sel_start = Some(self.msg.cursor);
                self.clear_norm();
            },
            Some(NormalCommand::MessagesMode) => {
                self.vim_mode = VimMode::Messages;
                self.prev_mode = Some(VimMode::Normal);
                self.clear_norm();
            },
            Some(NormalCommand::ClientsMode) => {
                self.vim_mode = VimMode::Clients;
                self.prev_mode = Some(VimMode::Normal);
                self.clear_norm();
            },
        }
    }
}

/// The hints shown for an incomplete Normal-mode prefix.
pub open spec fn normal_hints(p: Seq<char>) -> Seq<Seq<char>> {
    if p.len() == 1 && p[0] == 'd' {
        seq!["d -> delete msg"@, "i -> delete inner"@]
    } else if p.len() == 2 && p[0] == 'd' && p[1] == 'i' {
        seq!["w -> delete inner word"@]
    } else if p.len() == 1 && p[0] == 'g' {
        seq!["gg -> go to start of msg"@]
    } else {
        Seq::empty()
    }
}

/// The Visual-mode command table.
#[derive(Clone, Copy, PartialEq, Eq, Structural)]
pub enum VisualCommand {
    Left,
    Right,
    Yank,
    BackWord,
    BackBigWord,
    ForwardWord,
    ForwardBigWord,
    EndWord,
    EndBigWord,
    /// `x` or `d`
    Delete,
}

pub open spec fn visual_command(p: Seq<char>) -> Option<VisualCommand> {
    if p.len() == 1 && p[0] == 'h' {
        Some(VisualCommand::Left)
    } else if p.len() == 1 && p[0] == 'l' {
        Some(VisualCommand::Right)
    } else if p.len() == 1 && p[0] == 'y' {
        Some(VisualCommand::Yank)
    } else if p.len() == 1 && p[0] == 'b' {
        Some(VisualCommand::BackWord)
    } else if p.len() == 1 && p[0] == 'B' {
        Some(VisualCommand::BackBigWord)
    } else if p.len() == 1 && p[0] == 'w' {
        Some(VisualCommand::ForwardWord)
    } else if p.len() == 1 && p[0] == 'W' {
        Some(VisualCommand::ForwardBigWord)
    } else if p.len() == 1 && p[0] == 'e' {
        Some(VisualCommand::EndWord)
    } else if p.len() == 1 && p[0] == 'E' {
        Some(VisualCommand::EndBigWord)
    } else if p.len() == 1 && (p[0] == 'x' || p[0] == 'd') {
        Some(VisualCommand::Delete)
    } else {
        None
    }
}

pub fn parse_visual(p: &Vec<char>) -> (r: Option<VisualCommand>)
    ensures
        r == visual_command(p@),
{
    if is1(p, 'h') {
        Some(VisualCommand::Left)
    } else if is1(p, 'l') {
        Some(VisualCommand::Right)
    } else if is1(p, 'y') {
        Some(VisualCommand::Yank)
    } else if is1(p, 'b') {
        Some(VisualCommand::BackWord)
    } else if is1(p, 'B') {
        Some(VisualCommand::BackBigWord)
    } else if is1(p, 'w') {
        Some(VisualCommand::ForwardWord)
    } else if is1(p, 'W') {
        Some(VisualCommand::ForwardBigWord)
    } else if is1(p, 'e') {
        Some(VisualCommand::EndWord)
    } else if is1(p, 'E') {
        Some(VisualCommand::EndBigWord)
    } else if is1(p, 'x') || is1(p, 'd') {
        Some(VisualCommand::Delete)
    } else {
        None
    }
}

/// The selected range of the compose buffer, clipped to the text.
pub open spec fn clipped_selection(o: App) -> (int, int) {
    let (a, b) = selection(o.sel_start.unwrap() as int, o.msg.cursor as int);
    let len = o.msg@.len() as int;
    (if a < len { a } else { len }, if b < len { b } else { len })
}

/// A Visual-mode motion: only the cursor moved, the pending command is gone.
pub open spec fn visual_moved(o: App, n: App, c: int) -> bool {
    &&& n.msg@ == o.msg@
    &&& n.msg.cursor == c
    &&& n.vis@.len() == 0
    &&& n == (App { msg: n.msg, vis: n.vis, ..o })
}

/// What running the pending Visual-mode command does (in Visual mode);
/// leaving Visual mode drops the selection anchor.
pub open spec fn visual_effect(o: App, n: App) -> bool {
    let s = o.msg@;
    let c = o.msg.cursor as int;
    match visual_command(o.vis@) {
        None => n == o,
        Some(VisualCommand::Left) => visual_moved(o, n, if c > 0 { c - 1 } else { 0 }),
        Some(VisualCommand::Right) => visual_moved(o, n, right_target(s, c, o.vim_mode)),
        Some(VisualCommand::BackWord) => visual_moved(o, n, back_target(s, c, false)),
        Some(VisualCommand::BackBigWord) => visual_moved(o, n, back_target(s, c, true)),
        Some(VisualCommand::ForwardWord) => visual_moved(o, n, forward_target(s, c, false)),
        Some(VisualCommand::ForwardBigWord) => visual_moved(o, n, forward_target(s, c, true)),
        Some(VisualCommand::EndWord) => visual_moved(o, n, end_target(s, c, false)),
        Some(VisualCommand::EndBigWord) => visual_moved(o, n, end_target(s, c, true)),
        Some(VisualCommand::Yank) => {
            let (a, b) = clipped_selection(o);
            &&& n.vis@.len() == 0
            &&& n == (App {
                vis: n.vis,
                yank: n.yank,
                vim_mode: VimMode::Normal,
                prev_mode: Some(VimMode::Visual),
                sel_start: None,
                ..o
            })
            &&& if o.sel_start is Some {
                n.yank@ == s.subrange(a, b)
            } else {
                n.yank == o.yank
            }
        },
        Some(VisualCommand::Delete) => {
            let (a, b) = clipped_selection(o);
            let rest = s.subrange(0, a) + s.subrange(b, s.len() as int);
            &&& n.vis@.len() == 0
            &&& n == (App {
                msg: n.msg,
                vis: n.vis,
                yank: n.yank,
                vim_mode: VimMode::Normal,
                prev_mode: Some(VimMode::Visual),
                sel_start: None,
                ..o
            })
            &&& if o.sel_start is Some {
                &&& n.yank@ == s.subrange(a, b)
                &&& n.msg@ == rest
                &&& n.msg.cursor == landing(rest, a)
            } else {
                n.yank == o.yank && n.msg == o.msg
            }
        },
    }
}

impl App {
    /// Hints for completing the pending Normal-mode prefix.
    pub fn get_avaiable_normal_commands(&self) -> (r: Vec<&'static str>)
        ensures
            r@.len() == normal_hints(self.norm@).len(),
            forall|i: int| 0 <= i < r@.len() ==> (#[trigger] r@[i])@ == normal_hints(self.norm@)[i],
    {
        let p = crate::chars::chars_of(self.norm.as_str());
        let mut out: Vec<&'static str> = Vec::new();
        if is1(&p, 'd') {
            out.push("d -> delete msg");
            out.push("i -> delete inner");
        } else if is2(&p, 'd', 'i') {
            out.push("w -> delete inner word");
        } else if is1(&p, 'g') {
            out.push("gg -> go to start of msg");
        }
        out
    }

    /// Runs the pending Visual-mode command when the table names one.
    pub fn execute_vis(&mut self)
        requires
            old(self).wf(),
            old(self).vim_mode == VimMode::Visual,
        ensures
            final(self).wf(),
            visual_effect(*old(self), *final(self)),
    {
        let keys = crate::chars::chars_of(self.vis.as_str());
        match parse_visual(&keys) {
            None => {},
            Some(VisualCommand::Left) => {
                self.move_msg_cursor_left();
                self.clear_vis();
            },
            Some(VisualCommand::Right) => {
                self.move_msg_cursor_right();
                self.clear_vis();
            },
            Some(VisualCommand::BackWord) => {
                self.move_msg_cursor_back_word();
                self.clear_vis();
            },
            Some(VisualCommand::BackBigWord) => {
                self.move_msg_cursor_back_word_uppercase();
                self.clear_vis();
            },
            Some(VisualCommand::ForwardWord) => {
                self.move_msg_cursor_forward_word();
                self.clear_vis();
            },
            Some(VisualCommand::ForwardBigWord) => {
                self.move_msg_cursor_forward_word_uppercase();
                self.clear_vis();
            },
            Some(VisualCommand::EndWord) => {
                self.move_msg_cursor_end_of_word();
                self.clear_vis();
            },
            Some(VisualCommand::EndBigWord) => {
                self.move_msg_cursor_end_of_word_uppercase();
                self.clear_vis();
            },
            Some(VisualCommand::Yank) => {
                match self.msg_selection_range() {
                    Some((start, end)) => {
                        let len = self.msg.len();
                        let a = if start < len { start } else { len };
                        let b = if end < len { end } else { len };
                        let text = self.msg.slice(a, b);
                        self.set_yank(crate::chars::string_of(&text));
                    },
                    None => {},
                }
                self.clear_vis();
                self.vim_mode = VimMode::Normal;
                self.prev_mode = Some(VimMode::Visual);
                self.sel_start = None;
            },
            Some(VisualCommand::Delete) => {
                match self.msg_selection_range() {
                    Some((start, end)) => {
                        let len = self.msg.len();
                        let a = if start < len { start } else { len };
                        self.msg.cursor = a;
                        let ghost s0 = self.msg@;
                        let text = self.take_msg_from_cursor_to_x(end);
                        proof {
                            let b = if end < len { end as int } else { len as int };
                            if a as int >= b {
                                assert(s0.subrange(0, a as int) + s0.subrange(b, s0.len() as int) =~= s0);
                                assert(text@ =~= s0.subrange(a as int, b));
                            }
                        }
                        self.set_yank(text);
                        let n = self.msg.len();
                        if n == 0 {
                            self.msg.cursor = 0;
                        } else if self.msg.cursor > n - 1 {
                            self.msg.cursor = self.msg.cursor - 1;
                        }
                    },
                    None => {},
                }
                self.clear_vis();
                self.vim_mode = VimMode::Normal;
                self.prev_mode = Some(VimMode::Visual);
                self.sel_start = None;
            },
        }
    }
}

/// The Messages-mode command table.
#[derive(Clone, Copy, PartialEq, Eq, Structural)]
pub enum MessagesCommand {
    /// `q`: back to Normal
    Leave,
    /// `gg`
    Top,
    /// `G`
    Bottom,
    /// `y`: yank the selected record and leave
    Yank,
    /// `:`
    CommandMode,
    /// `s`
    ServerMode,
    /// `j`
    Down,
    /// `k`
    Up,
    /// `c`
    ClientsMode,
}

pub open spec fn messages_command(p: Seq<char>) -> Option<MessagesCommand> {
    if p.len() == 1 && p[0] == 'q' {
        Some(MessagesCommand::Leave)
    } else if p.len() == 2 && p[0] == 'g' && p[1] == 'g' {
        Some(MessagesCommand::Top)
    } else if p.len() == 1 && p[0] == 'G' {
        Some(MessagesCommand::Bottom)
    } else if p.len() == 1 && p[0] == 'y' {
        Some(MessagesCommand::Yank)
    } else if p.len() == 1 && p[0] == ':' {
        Some(MessagesCommand::CommandMode)
    } else if p.len() == 1 && p[0] == 's' {
        Some(MessagesCommand::ServerMode)
    } else if p.len() == 1 && p[0] == 'j' {
        Some(MessagesCommand::Down)
    } else if p.len() == 1 && p[0] == 'k' {
        Some(MessagesCommand::Up)
    } else if p.len() == 1 && p[0] == 'c' {
        Some(MessagesCommand::ClientsMode)
    } else {
        None
    }
}

pub fn parse_messages(p: &Vec<char>) -> (r: Option<MessagesCommand>)
    ensures
        r == messages_command(p@),
{
    if is1(p, 'q') {
        Some(MessagesCommand::Leave)
    } else if is2(p, 'g', 'g') {
        Some(MessagesCommand::Top)
    } else if is1(p, 'G') {
        Some(MessagesCommand::Bottom)
    } else if is1(p, 'y') {
        Some(MessagesCommand::Yank)
    } else if is1(p, ':') {
        Some(MessagesCommand::CommandMode)
    } else if is1(p, 's') {
        Some(MessagesCommand::ServerMode)
    } else if is1(p, 'j') {
        Some(MessagesCommand::Down)
    } else if is1(p, 'k') {
        Some(MessagesCommand::Up)
    } else if is1(p, 'c') {
        Some(MessagesCommand::ClientsMode)
    } else {
        None
    }
}

/// The text of the selected record of the current log, when there is one.
pub open spec fn selected_record_text(o: App) -> Option<Seq<char>> {
    match o.current_key() {
        Some(k) => if o.channel_messages.view().dom().contains(k) && o.channel_messages.view()[k].messages.len() > 0 {
            Some(o.channel_messages.view()[k].messages[o.channel_messages.view()[k].msg_index as int].text)
        } else {
            None
        },
        None => None,
    }
}

/// The yank register after yanking the selected record.
pub open spec fn yank_after_record(o: App, n: App) -> bool {
    match selected_record_text(o) {
        Some(t) => n.yank@ == t,
        None => n.yank == o.yank,
    }
}

/// The current log after `op`, the pending command gone, nothing else.
pub open spec fn log_stepped(o: App, n: App, op: LogEdit) -> bool {
    &&& n.channel_messages.view() == o.current_applied(op)
    &&& n.messages_cmd@.len() == 0
    &&& n == (App { channel_messages: n.channel_messages, messages_cmd: n.messages_cmd, ..o })
}

/// Mode switched from Messages, the pending command gone, nothing else.
pub open spec fn left_messages(o: App, n: App, m: VimMode) -> bool {
    &&& n.messages_cmd@.len() == 0
    &&& n == (App {
        vim_mode: m,
        prev_mode: Some(VimMode::Messages),
        messages_cmd: n.messages_cmd,
        ..o
    })
}

/// What running the pending Messages-mode command does.
pub open spec fn messages_effect(o: App, n: App) -> bool {
    match messages_command(o.messages_cmd@) {
        None => n == o,
        Some(MessagesCommand::Leave) => left_messages(o, n, VimMode::Normal),
        Some(MessagesCommand::Top) => log_stepped(o, n, LogEdit::JumpTop),
        Some(MessagesCommand::Bottom) => log_stepped(o, n, LogEdit::JumpBottom),
        Some(MessagesCommand::Yank) => {
            &&& n.messages_cmd@.len() == 0
            &&& yank_after_record(o, n)
            &&& n == (App {
                vim_mode: VimMode::Normal,
                prev_mode: Some(VimMode::Messages),
                messages_cmd: n.messages_cmd,
                yank: n.yank,
                ..o
            })
        },
        Some(MessagesCommand::CommandMode) => left_messages(o, n, VimMode::Command),
        Some(MessagesCommand::ServerMode) => {
            &&& n.messages_cmd@.len() == 0
            &&& n.server_tree@ == tree_of(o.servers@)
            &&& n == (App {
                vim_mode: VimMode::Server,
                prev_mode: Some(VimMode::Messages),
                messages_cmd: n.messages_cmd,
                server_tree: n.server_tree,
                server_tree_index: 0,
                ..o
            })
        },
        Some(MessagesCommand::Down) => log_stepped(o, n, LogEdit::MoveDown),
        Some(MessagesCommand::Up) => log_stepped(o, n, LogEdit::MoveUp),
        Some(MessagesCommand::ClientsMode) => left_messages(o, n, VimMode::Clients),
    }
}

/// The Clients-mode command table.
#[derive(Clone, Copy, PartialEq, Eq, Structural)]
pub enum ClientsCommand {
    /// `q`: back to Normal
    Leave,
    /// `:`
    CommandMode,
    /// `gg`
    Top,
    /// `G`
    Bottom,
    /// `y`: yank the selected participant and leave
    Yank,
    /// `j`
    Down,
    /// `k`
    Up,
    /// `m`
    MessagesMode,
    /// `s`
    ServerMode,
    /// `i`
    InsertMode,
}

pub open spec fn clients_command(p: Seq<char>) -> Option<ClientsCommand> {
    if p.len() == 1 && p[0] == 'q' {
        Some(ClientsCommand::Leave)
    } else if p.len() == 1 && p[0] == ':' {
        Some(ClientsCommand::CommandMode)
    } else if p.len() == 2 && p[0] == 'g' && p[1] == 'g' {
        Some(ClientsCommand::Top)
    } else if p.len() == 1 && p[0] == 'G' {
        Some(ClientsCommand::Bottom)
    } else if p.len() == 1 && p[0] == 'y' {
        Some(ClientsCommand::Yank)
    } else if p.len() == 1 && p[0] == 'j' {
        Some(ClientsCommand::Down)
    } else if p.len() == 1 && p[0] == 'k' {
        Some(ClientsCommand::Up)
    } else if p.len() == 1 && p[0] == 'm' {
        Some(ClientsCommand::MessagesMode)
    } else if p.len() == 1 && p[0] == 's' {
        Some(ClientsCommand::ServerMode)
    } else if p.len() == 1 && p[0] == 'i' {
        Some(ClientsCommand::InsertMode)
    } else {
        None
    }
}

pub fn parse_clients(p: &Vec<char>) -> (r: Option<ClientsCommand>)
    ensures
        r == clients_command(p@),
{
    if is1(p, 'q') {
        Some(ClientsCommand::Leave)
    } else if is1(p, ':') {
        Some(ClientsCommand::CommandMode)
    } else if is2(p, 'g', 'g') {
        Some(ClientsCommand::Top)
    } else if is1(p, 'G') {
        Some(ClientsCommand::Bottom)
    } else if is1(p, 'y') {
        Some(ClientsCommand::Yank)
    } else if is1(p, 'j') {
        Some(ClientsCommand::Down)
    } else if is1(p, 'k') {
        Some(ClientsCommand::Up)
    } else if is1(p, 'm') {
        Some(ClientsCommand::MessagesMode)
    } else if is1(p, 's') {
        Some(ClientsCommand::ServerMode)
    } else if is1(p, 'i') {
        Some(ClientsCommand::InsertMode)
    } else {
        None
    }
}

/// Participant selection moved to `i`, the pending command gone.
pub open spec fn client_moved(o: App, n: App, i: int) -> bool {
    &&& n.clients_cmd@.len() == 0
    &&& n == (App { client_index: i as usize, clients_cmd: n.clients_cmd, ..o })
}

/// Mode switched from Clients, the pending command gone, nothing else.
pub open spec fn left_clients(o: App, n: App, m: VimMode) -> bool {
    &&& n.clients_cmd@.len() == 0
    &&& n == (App {
        vim_mode: m,
        prev_mode: Some(VimMode::Clients),
        clients_cmd: n.clients_cmd,
        ..o
    })
}

/// What running the pending Clients-mode command does.
pub open spec fn clients_effect(o: App, n: App) -> bool {
    let i = o.client_index as int;
    let len = o.clients@.len() as int;
    match clients_command(o.clients_cmd@) {
        None => n == o,
        Some(ClientsCommand::Leave) => left_clients(o, n, VimMode::Normal),
        Some(ClientsCommand::CommandMode) => left_clients(o, n, VimMode::Command),
        Some(ClientsCommand::Top) => client_moved(o, n, 0),
        Some(ClientsCommand::Bottom) => client_moved(o, n, if len > 0 { len - 1 } else { i }),
        Some(ClientsCommand::Yank) => {
            &&& n.clients_cmd@.len() == 0
            &&& n == (App {
                vim_mode: VimMode::Normal,
                prev_mode: Some(VimMode::Clients),
                clients_cmd: n.clients_cmd,
                yank: n.yank,
                ..o
            })
            &&& if i < len {
                n.yank@ == o.clients@[i].name@
            } else {
                n.yank == o.yank
            }
        },
        Some(ClientsCommand::Down) => client_moved(o, n, if i + 1 < len { i + 1 } else { i }),
        Some(ClientsCommand::Up) => client_moved(o, n, if i > 0 { i - 1 } else { i }),
        Some(ClientsCommand::MessagesMode) => left_clients(o, n, VimMode::Messages),
        Some(ClientsCommand::ServerMode) => {
            &&& n.clients_cmd@.len() == 0
            &&& n.server_tree@ == tree_of(o.servers@)
            &&& n == (App {
                vim_mode: VimMode::Server,
                prev_mode: Some(VimMode::Clients),
                clients_cmd: n.clients_cmd,
                server_tree: n.server_tree,
                server_tree_index: 0,
                ..o
            })
        },
        Some(ClientsCommand::InsertMode) => left_clients(o, n, VimMode::Insert),
    }
}

impl App {
    /// Runs the pending Messages-mode command when the table names one.
    pub fn execute_messages_cmd(&mut self)
        requires
            old(self).wf(),
        ensures
            final(self).wf(),
            messages_effect(*old(self), *final(self)),
    {
        let keys = crate::chars::chars_of(self.messages_cmd.as_str());
        match parse_messages(&keys) {
            None => {},
            Some(MessagesCommand::Leave) => {
                self.vim_mode = VimMode::Normal;
                self.prev_mode = Some(VimMode::Messages);
                self.clear_messages_cmd();
            },
            Some(MessagesCommand::Top) => {
                self.msg_jump_top();
                self.clear_messages_cmd();
            },
            Some(MessagesCommand::Bottom) => {
                self.msg_jump_bottom();
                self.clear_messages_cmd();
            },
            Some(MessagesCommand::Yank) => {
                self.yank_msg();
                self.vim_mode = VimMode::Normal;
                self.prev_mode = Some(VimMode::Messages);
                self.clear_messages_cmd();
            },
            Some(MessagesCommand::CommandMode) => {
                self.vim_mode = VimMode::Command;
                self.prev_mode = Some(VimMode::Messages);
                self.clear_messages_cmd();
            },
            Some(MessagesCommand::ServerMode) => {
                self.vim_mode = VimMode::Server;
                self.prev_mode = Some(VimMode::Messages);
                self.rebuild_server_tree();
                self.server_tree_index = 0;
                self.clear_messages_cmd();
            },
            Some(MessagesCommand::Down) => {
                self.move_msg_down();
                self.clear_messages_cmd();
            },
            Some(MessagesCommand::Up) => {
                self.move_msg_up();
                self.clear_messages_cmd();
            },
            Some(MessagesCommand::ClientsMode) => {
                self.vim_mode = VimMode::Clients;
                self.prev_mode = Some(VimMode::Messages);
                self.clear_messages_cmd();
            },
        }
    }

    /// Runs the pending Clients-mode command when the table names one.
    pub fn execute_clients_cmd(&mut self)
        requires
            old(self).wf(),
        ensures
            final(self).wf(),
            clients_effect(*old(self), *final(self)),
    {
        let keys = crate::chars::chars_of(self.clients_cmd.as_str());
        match parse_clients(&keys) {
            None => {},
            Some(ClientsCommand::Leave) => {
                self.vim_mode = VimMode::Normal;
                self.prev_mode = Some(VimMode::Clients);
                self.clear_clients_cmd();
            },
            Some(ClientsCommand::CommandMode) => {
                self.vim_mode = VimMode::Command;
                self.prev_mode = Some(VimMode::Clients);
                self.clear_clients_cmd();
            },
            Some(ClientsCommand::Top) => {
                self.client_jump_top();
                self.clear_clients_cmd();
            },
            Some(ClientsCommand::Bottom) => {
                self.client_jump_bottom();
                self.clear_clients_cmd();
            },
            Some(ClientsCommand::Yank) => {
                self.yank_client();
                self.vim_mode = VimMode::Normal;
                self.prev_mode = Some(VimMode::Clients);
                self.clear_clients_cmd();
            },
            Some(ClientsCommand::Down) => {
                self.move_client_selection_down();
                self.clear_clients_cmd();
            },
            Some(ClientsCommand::Up) => {
                self.move_client_selection_up();
                self.clear_clients_cmd();
            },
            Some(ClientsCommand::MessagesMode) => {
                self.vim_mode = VimMode::Messages;
                self.prev_mode = Some(VimMode::Clients);
                self.clear_clients_cmd();
            },
            Some(ClientsCommand::ServerMode) => {
                self.vim_mode = VimMode::Server;
                self.prev_mode = Some(VimMode::Clients);
                self.rebuild_server_tree();
                self.server_tree_index = 0;
                self.clear_clients_cmd();
            },
            Some(ClientsCommand::InsertMode) => {
                self.vim_mode = VimMode::Insert;
                self.prev_mode = Some(VimMode::Clients);
                self.clear_clients_cmd();
            },
        }
    }
}

} // verus!
