use vstd::prelude::*;
use vstd::string::StringExecFns;
use crate::chars::string_of;
use crate::servers::ServerConfig;
use crate::store::{context_key, store_apply, ChannelContext, LogEdit, MessageStore};
use crate::text::EditableText;
use crate::tree::{ClientInfo, ServerInfo, ServerTreeItem};

verus! {

/// The editing modes; exactly one is active.
#[derive(Clone, Copy, PartialEq, Eq, Structural, Debug)]
pub enum VimMode {
    Normal,
    Insert,
    Visual,
    Command,
    Server,
    Messages,
    Clients,
    Vimless,
}

impl Default for VimMode {
    fn default() -> (r: VimMode)
        ensures
            r == VimMode::Normal,
    {
        VimMode::Normal
    }
}

/// The mode that Tab moves to.
pub open spec fn next_mode(m: VimMode) -> VimMode {
    match m {
        VimMode::Normal | VimMode::Insert | VimMode::Visual => VimMode::Server,
        VimMode::Command => VimMode::Normal,
        VimMode::Server => VimMode::Messages,
        VimMode::Messages => VimMode::Clients,
        VimMode::Clients => VimMode::Normal,
        VimMode::Vimless => VimMode::Vimless,
    }
}

/// `s` with `c` appended.
pub fn push_char(s: &mut String, c: char)
    ensures
        final(s)@ == old(s)@.push(c),
{
    let mut v: Vec<char> = Vec::new();
    v.push(c);
    let t = string_of(&v);
    s.append(t.as_str());
    assert(final(s)@ =~= old(s)@.push(c));
}

/// The whole session state of the client.
pub struct App {
    /// The message being composed, with its cursor.
    pub msg: EditableText,
    /// The command line, with its cursor.
    pub cmd: EditableText,
    /// Keystrokes pending in Normal mode.
    pub norm: String,
    /// Keystrokes pending in Visual mode.
    pub vis: String,
    /// Keystrokes pending in Messages mode.
    pub messages_cmd: String,
    /// Keystrokes pending in Clients mode.
    pub clients_cmd: String,
    /// The selection anchor in the compose buffer.
    pub sel_start: Option<usize>,
    /// The yank register.
    pub yank: String,
    /// The name of the channel being viewed.
    pub channel: String,
    pub should_quit: bool,
    pub vim_mode: VimMode,
    pub is_connected: bool,
    pub servers: Vec<ServerInfo>,
    pub server_tree: Vec<ServerTreeItem>,
    pub server_tree_index: usize,
    pub prev_mode: Option<VimMode>,
    pub client_index: usize,
    pub clients: Vec<ClientInfo>,
    pub current_nick: String,
    pub current_channel: Option<ChannelContext>,
    pub channel_messages: MessageStore,
}

/// A server of the configuration as the roster first sees it: not
/// connected, collapsed, no channels.
pub open spec fn fresh_server(s: ServerInfo, name: Seq<char>) -> bool {
    s.name@ == name && !s.is_connected && !s.is_expanded && s.channels@.len() == 0
}

impl App {
    pub open spec fn wf(&self) -> bool {
        &&& self.msg.wf()
        &&& self.cmd.wf()
        &&& self.msg@.len() < usize::MAX
        &&& self.cmd@.len() < usize::MAX
        &&& self.channel_messages.wf()
        &&& self.sel_start matches Some(a) ==> a < usize::MAX
    }

    /// The log key of the current destination.
    pub open spec fn current_key(&self) -> Option<(Seq<char>, Seq<char>)> {
        match self.current_channel {
            Some(c) => Some(context_key(c)),
            None => None,
        }
    }

    /// The store after `op` on the current destination's log (created
    /// when absent); unchanged without a current destination.
    pub open spec fn current_applied(&self, op: LogEdit) -> Map<(Seq<char>, Seq<char>), crate::messages::LogView> {
        match self.current_key() {
            Some(k) => store_apply(self.channel_messages.view(), k, op),
            None => self.channel_messages.view(),
        }
    }

    /// A session seeded from the configured servers: all disconnected and
    /// collapsed, Normal mode, empty buffers, no destination.
    pub fn new(config: &ServerConfig) -> (r: App)
        ensures
            r.wf(),
            r.servers@.len() == config.servers@.len(),
            forall|i: int|
                0 <= i < r.servers@.len() ==> fresh_server(
                    #[trigger] r.servers@[i],
                    config.servers@[i].name@,
                ),
            r.msg@.len() == 0 && r.msg.cursor == 0,
            r.cmd@.len() == 0 && r.cmd.cursor == 0,
            r.norm@.len() == 0 && r.vis@.len() == 0,
            r.messages_cmd@.len() == 0 && r.clients_cmd@.len() == 0,
            r.yank@.len() == 0 && r.channel@.len() == 0 && r.current_nick@.len() == 0,
            r.sel_start is None,
            !r.should_quit,
            r.vim_mode == VimMode::Normal,
            r.prev_mode is None,
            !r.is_connected,
            r.server_tree@.len() == 0 && r.server_tree_index == 0,
            r.clients@.len() == 0 && r.client_index == 0,
            r.current_channel is None,
            r.channel_messages.view().dom().len() == 0,
    {
        let mut servers: Vec<ServerInfo> = Vec::new();
        let mut i: usize = 0;
        while i < config.servers.len()
            invariant
                i <= config.servers@.len(),
                servers@.len() == i,
                forall|j: int|
                    0 <= j < i ==> fresh_server(#[trigger] servers@[j], config.servers@[j].name@),
            decreases config.servers@.len() - i,
        {
            servers.push(
                ServerInfo {
                    name: config.servers[i].name.clone(),
                    is_connected: false,
                    channels: Vec::new(),
                    is_expanded: false,
                },
            );
            i = i + 1;
        }
        let store = MessageStore::new();
        proof {
            assert(store.view().dom() =~= Set::empty());
        }
        App {
            msg: EditableText::new(),
            cmd: EditableText::new(),
            norm: String::new(),
            vis: String::new(),
            messages_cmd: String::new(),
            clients_cmd: String::new(),
            sel_start: None,
            yank: String::new(),
            channel: String::new(),
            should_quit: false,
            vim_mode: VimMode::Normal,
            is_connected: false,
            servers,
            server_tree: Vec::new(),
            server_tree_index: 0,
            prev_mode: None,
            client_index: 0,
            clients: Vec::new(),
            current_nick: String::new(),
            current_channel: None,
            channel_messages: store,
        }
    }

    /// The label of the current mode.
    pub fn get_mode_name(&self) -> (r: &'static str)
        ensures
            r@ == match self.vim_mode {
                VimMode::Normal => "NORMAL"@,
                VimMode::Insert => "INSERT"@,
                VimMode::Visual => "VISUAL"@,
                VimMode::Command => "COMMAND"@,
                VimMode::Server => "SERVER"@,
                VimMode::Messages => "MESSAGES"@,
                VimMode::Clients => "CLIENTS"@,
                VimMode::Vimless => "VIMLESS"@,
            },
    {
        match self.vim_mode {
            VimMode::Normal => "NORMAL",
            VimMode::Insert => "INSERT",
            VimMode::Visual => "VISUAL",
            VimMode::Command => "COMMAND",
            VimMode::Server => "SERVER",
            VimMode::Messages => "MESSAGES",
            VimMode::Clients => "CLIENTS",
            VimMode::Vimless => "VIMLESS",
        }
    }

    /// Stores `text` in the yank register.
    pub fn set_yank(&mut self, text: String)
        ensures
            *final(self) == (App { yank: text, ..*old(self) }),
    {
        self.yank = text;
    }

    /// Tab: advances the mode along its cycle.
    pub fn cycle_mode(&mut self)
        ensures
            *final(self) == (App { vim_mode: next_mode(old(self).vim_mode), ..*old(self) }),
    {
        self.vim_mode = match self.vim_mode {
            VimMode::Normal => VimMode::Server,
            VimMode::Insert => VimMode::Server,
            VimMode::Visual => VimMode::Server,
            VimMode::Command => VimMode::Normal,
            VimMode::Server => VimMode::Messages,
            VimMode::Messages => VimMode::Clients,
            VimMode::Clients => VimMode::Normal,
            VimMode::Vimless => VimMode::Vimless,
        };
    }

    /// Goes back to the remembered mode (Normal when none is remembered).
    pub fn return_to_prev_mode(&mut self)
        ensures
            *final(self) == (App {
                vim_mode: match old(self).prev_mode {
                    Some(m) => m,
                    None => VimMode::Normal,
                },
                ..*old(self)
            }),
    {
        self.vim_mode = match self.prev_mode {
            Some(m) => m,
            None => VimMode::Normal,
        };
    }
}

} // verus!
