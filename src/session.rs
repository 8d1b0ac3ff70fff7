use vstd::prelude::*;
use crate::app::App;
use crate::messages::{system_line, user_line, ChannelMessages, ColoredMessage};
use crate::store::{LogEdit, LogOp};
use crate::tree::{build_tree, clamp_index, clamp_selection, toggle_expansion, toggled, tree_of, ClientInfo};

verus! {

impl App {
    /// The log of the current destination, if there is one.
    pub fn get_current_messages(&self) -> (r: Option<&ChannelMessages>)
        requires
            self.wf(),
        ensures
            r is Some <==> (self.current_key() matches Some(k) && self.channel_messages.view().dom().contains(k)),
            r matches Some(m) ==> m.wf() && m@ == self.channel_messages.view()[self.current_key().unwrap()],
    {
        match &self.current_channel {
            Some(ctx) => self.channel_messages.get(ctx.server_name.as_str(), ctx.channel_name.as_str()),
            None => None,
        }
    }

    /// The log of the current destination, for changing in place; while it
    /// stays well formed, so does the session, with that log as the current
    /// destination's.
    pub fn get_current_messages_mut(&mut self) -> (r: Option<&mut ChannelMessages>)
        requires
            old(self).wf(),
        ensures
            r is Some <==> (old(self).current_key() matches Some(k)
                && old(self).channel_messages.view().dom().contains(k)),
            r is None ==> *final(self) == *old(self),
            r is Some ==> (*r.unwrap())@ == old(self).channel_messages.view()[old(self).current_key().unwrap()]
                && (*r.unwrap()).wf(),
            r is Some && final(r.unwrap()).wf() ==> final(self).wf()
                && final(self).channel_messages.view() == old(self).channel_messages.view().insert(
                old(self).current_key().unwrap(),
                final(r.unwrap())@,
            ),
            *final(self) == (App { channel_messages: final(self).channel_messages, ..*old(self) }),
    {
        match &self.current_channel {
            Some(ctx) => self.channel_messages.get_mut(
                ctx.server_name.as_str(),
                ctx.channel_name.as_str(),
            ),
            None => None,
        }
    }

    /// Applies `op` to the current destination's log, creating the log when
    /// absent; nothing happens without a current destination.
    pub fn apply_to_current(&mut self, op: LogOp)
        requires
            old(self).wf(),
        ensures
            final(self).wf(),
            final(self).channel_messages.view() == old(self).current_applied(op@),
            *final(self) == (App { channel_messages: final(self).channel_messages, ..*old(self) }),
    {
        match &self.current_channel {
            Some(ctx) => {
                self.channel_messages.apply(ctx.server_name.as_str(), ctx.channel_name.as_str(), op);
            },
            None => {},
        }
    }

    /// Adds a system line to the current log without moving its selection
    /// or window.
    pub fn push_without_updating_scroll(&mut self, text: String)
        requires
            old(self).wf(),
        ensures
            final(self).wf(),
            final(self).channel_messages.view() == old(self).current_applied(
                LogEdit::AppendQuiet(system_line(text@)),
            ),
            *final(self) == (App { channel_messages: final(self).channel_messages, ..*old(self) }),
    {
        self.apply_to_current(LogOp::AppendQuiet(ColoredMessage::system(text)));
    }

    /// Appends a system line to the current log (see `log_append` for how
    /// the selection follows).
    pub fn push_system_to_current(&mut self, text: String)
        requires
            old(self).wf(),
        ensures
            final(self).wf(),
            final(self).channel_messages.view() == old(self).current_applied(
                LogEdit::Append(system_line(text@)),
            ),
            *final(self) == (App { channel_messages: final(self).channel_messages, ..*old(self) }),
    {
        self.apply_to_current(LogOp::Append(ColoredMessage::system(text)));
    }

    /// Appends a line by `nick` to the current log.
    pub fn push_user_msg_to_current(&mut self, nick: &str, text: &str)
        requires
            old(self).wf(),
        ensures
            final(self).wf(),
            final(self).channel_messages.view() == old(self).current_applied(
                LogEdit::Append(user_line(nick@, text@)),
            ),
            *final(self) == (App { channel_messages: final(self).channel_messages, ..*old(self) }),
    {
        self.apply_to_current(LogOp::Append(ColoredMessage::from_user(nick, text)));
    }

    /// Empties the current log.
    pub fn clear_messages(&mut self)
        requires
            old(self).wf(),
        ensures
            final(self).wf(),
            final(self).channel_messages.view() == old(self).current_applied(LogEdit::Clear),
            *final(self) == (App { channel_messages: final(self).channel_messages, ..*old(self) }),
    {
        self.apply_to_current(LogOp::Clear);
    }

    /// Selects record `index` of the current log (pointer selection).
    pub fn move_msg_to_index(&mut self, index: usize)
        requires
            old(self).wf(),
        ensures
            final(self).wf(),
            final(self).channel_messages.view() == old(self).current_applied(
                LogEdit::JumpTo(index as nat),
            ),
            *final(self) == (App { channel_messages: final(self).channel_messages, ..*old(self) }),
    {
        self.apply_to_current(LogOp::JumpTo(index));
    }

    /// Moves the current log's selection up one record.
    pub fn move_msg_up(&mut self)
        requires
            old(self).wf(),
        ensures
            final(self).wf(),
            final(self).channel_messages.view() == old(self).current_applied(LogEdit::MoveUp),
            *final(self) == (App { channel_messages: final(self).channel_messages, ..*old(self) }),
    {
        self.apply_to_current(LogOp::MoveUp);
    }

    /// Moves the current log's selection down one record.
    pub fn move_msg_down(&mut self)
        requires
            old(self).wf(),
        ensures
            final(self).wf(),
            final(self).channel_messages.view() == old(self).current_applied(LogEdit::MoveDown),
            *final(self) == (App { channel_messages: final(self).channel_messages, ..*old(self) }),
    {
        self.apply_to_current(LogOp::MoveDown);
    }

    /// Selects the first record of the current log.
    pub fn msg_jump_top(&mut self)
        requires
            old(self).wf(),
        ensures
            final(self).wf(),
            final(self).channel_messages.view() == old(self).current_applied(LogEdit::JumpTop),
            *final(self) == (App { channel_messages: final(self).channel_messages, ..*old(self) }),
    {
        self.apply_to_current(LogOp::JumpTop);
    }

    /// Selects the last record of the current log.
    pub fn msg_jump_bottom(&mut self)
        requires
            old(self).wf(),
        ensures
            final(self).wf(),
            final(self).channel_messages.view() == old(self).current_applied(LogEdit::JumpBottom),
            *final(self) == (App { channel_messages: final(self).channel_messages, ..*old(self) }),
    {
        self.apply_to_current(LogOp::JumpBottom);
    }

    /// Records the rows that rendering has for the current log.
    pub fn set_viewport_height(&mut self, h: usize)
        requires
            old(self).wf(),
        ensures
            final(self).wf(),
            final(self).channel_messages.view() == old(self).current_applied(
                LogEdit::SetHeight(h as nat),
            ),
            *final(self) == (App { channel_messages: final(self).channel_messages, ..*old(self) }),
    {
        self.apply_to_current(LogOp::SetHeight(h));
    }

    /// Yanks the text of record `index` of the current log, when it exists.
    pub fn yank_msg_at_index(&mut self, index: usize)
        requires
            old(self).wf(),
        ensures
            *final(self) == (App { yank: final(self).yank, ..*old(self) }),
            ({
                let found = old(self).current_key() matches Some(k)
                    && old(self).channel_messages.view().dom().contains(k)
                    && index < old(self).channel_messages.view()[k].messages.len();
                if found {
                    final(self).yank@ == old(self).channel_messages.view()[old(self).current_key().unwrap()].messages[index as int].text
                } else {
                    final(self).yank == old(self).yank
                }
            }),
    {
        let text = match self.get_current_messages() {
            Some(m) => {
                if index < m.messages.len() {
                    Some(m.messages[index].text.clone())
                } else {
                    None
                }
            },
            None => None,
        };
        match text {
            Some(t) => self.set_yank(t),
            None => {},
        }
    }

    /// Yanks the text of the selected record of the current log.
    pub fn yank_msg(&mut self)
        requires
            old(self).wf(),
        ensures
            *final(self) == (App { yank: final(self).yank, ..*old(self) }),
            ({
                let found = old(self).current_key() matches Some(k)
                    && old(self).channel_messages.view().dom().contains(k)
                    && old(self).channel_messages.view()[k].messages.len() > 0;
                if found {
                    final(self).yank@ == old(self).channel_messages.view()[old(self).current_key().unwrap()].messages[
                        old(self).channel_messages.view()[old(self).current_key().unwrap()].msg_index as int].text
                } else {
                    final(self).yank == old(self).yank
                }
            }),
    {
        let index = match self.get_current_messages() {
            Some(m) => m.msg_index,
            None => 0,
        };
        self.yank_msg_at_index(index);
    }

    /// Tree selection one row up, stopping at the first.
    pub fn move_server_selection_up(&mut self)
        ensures
            *final(self) == (App {
                server_tree_index: if old(self).server_tree_index > 0 {
                    (old(self).server_tree_index - 1) as usize
                } else {
                    old(self).server_tree_index
                },
                ..*old(self)
            }),
    {
        if self.server_tree_index > 0 {
            self.server_tree_index = self.server_tree_index - 1;
        }
    }

    /// Tree selection one row down, stopping at the last.
    pub fn move_server_selection_down(&mut self)
        ensures
            *final(self) == (App {
                server_tree_index: if old(self).server_tree_index + 1 < old(self).server_tree@.len() {
                    (old(self).server_tree_index + 1) as usize
                } else {
                    old(self).server_tree_index
                },
                ..*old(self)
            }),
    {
        if self.server_tree_index < self.server_tree.len() && self.server_tree.len()
            - self.server_tree_index > 1 {
            self.server_tree_index = self.server_tree_index + 1;
        }
    }

    /// Whether server `server_index` exists and is connected.
    pub fn is_server_connected(&self, server_index: usize) -> (r: bool)
        ensures
            r == (server_index < self.servers@.len() && self.servers@[server_index as int].is_connected),
    {
        if server_index < self.servers.len() {
            self.servers[server_index].is_connected
        } else {
            false
        }
    }

    /// Collapses every other server and flips this one; call
    /// `rebuild_server_tree` afterwards to see it.
    pub fn toggle_server_expansion(&mut self, server_index: usize)
        ensures
            final(self).servers@ == toggled(old(self).servers@, server_index as int),
            *final(self) == (App { servers: final(self).servers, ..*old(self) }),
    {
        toggle_expansion(&mut self.servers, server_index);
    }

    /// Rebuilds the tree from the roster and clamps its selection.
    pub fn rebuild_server_tree(&mut self)
        ensures
            final(self).server_tree@ == tree_of(old(self).servers@),
            final(self).server_tree_index == clamp_index(
                old(self).server_tree_index as int,
                tree_of(old(self).servers@).len() as int,
            ),
            *final(self) == (App {
                server_tree: final(self).server_tree,
                server_tree_index: final(self).server_tree_index,
                ..*old(self)
            }),
    {
        let t = build_tree(&self.servers);
        self.server_tree_index = clamp_selection(self.server_tree_index, t.len());
        self.server_tree = t;
    }

    /// Participant selection one up, stopping at the first.
    pub fn move_client_selection_up(&mut self)
        ensures
            *final(self) == (App {
                client_index: if old(self).client_index > 0 {
                    (old(self).client_index - 1) as usize
                } else {
                    old(self).client_index
                },
                ..*old(self)
            }),
    {
        if self.client_index > 0 {
            self.client_index = self.client_index - 1;
        }
    }

    /// Participant selection one down, stopping at the last.
    pub fn move_client_selection_down(&mut self)
        ensures
            *final(self) == (App {
                client_index: if old(self).client_index + 1 < old(self).clients@.len() {
                    (old(self).client_index + 1) as usize
                } else {
                    old(self).client_index
                },
                ..*old(self)
            }),
    {
        if self.client_index < self.clients.len() && self.clients.len() - self.client_index > 1 {
            self.client_index = self.client_index + 1;
        }
    }

    /// The selected participant.
    pub fn get_selected_client(&self) -> (r: Option<&ClientInfo>)
        ensures
            r is Some <==> self.client_index < self.clients@.len(),
            r matches Some(c) ==> *c == self.clients@[self.client_index as int],
    {
        if self.client_index < self.clients.len() {
            Some(&self.clients[self.client_index])
        } else {
            None
        }
    }

    /// Selects the first participant.
    pub fn client_jump_top(&mut self)
        ensures
            *final(self) == (App { client_index: 0, ..*old(self) }),
    {
        self.client_index = 0;
    }

    /// Selects the last participant (no change without participants).
    pub fn client_jump_bottom(&mut self)
        ensures
            *final(self) == (App {
                client_index: if old(self).clients@.len() > 0 {
                    (old(self).clients@.len() - 1) as usize
                } else {
                    old(self).client_index
                },
                ..*old(self)
            }),
    {
        if self.clients.len() > 0 {
            self.client_index = self.clients.len() - 1;
        }
    }

    /// Yanks the selected participant's name.
    pub fn yank_client(&mut self)
        ensures
            *final(self) == (App { yank: final(self).yank, ..*old(self) }),
            old(self).client_index < old(self).clients@.len() ==> final(self).yank@
                == old(self).clients@[old(self).client_index as int].name@,
            old(self).client_index >= old(self).clients@.len() ==> final(self).yank == old(self).yank,
    {
        if self.client_index < self.clients.len() {
            let name = self.clients[self.client_index].name.clone();
            self.set_yank(name);
        }
    }

    /// Selects participant `index` when it exists.
    pub fn move_client_to_index(&mut self, index: usize)
        ensures
            *final(self) == (App {
                client_index: if index < old(self).clients@.len() {
                    index
                } else {
                    old(self).client_index
                },
                ..*old(self)
            }),
    {
        if index < self.clients.len() {
            self.client_index = index;
        }
    }
}

} // verus!
