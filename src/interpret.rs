use vstd::prelude::*;
use vstd::string::StringExecFns;
use crate::app::{App, VimMode};
use crate::chars::{chars_of, string_of};
use crate::commands::{
    command_line, opt_view, parse_command_line, parse_vimless_line, vimless_line, AddServerArgs,
    AddServerView, LineCommand, LineView,
};
use crate::dispatch::{dm_ensured, first_connected, only_noticed, opened, tree_rebuilt};
use crate::irc::{intents, Intent, IrcCommand};
use crate::messages::user_line;
use crate::store::{store_apply, LogEdit};

verus! {

pub open spec fn not_connected_text(v: bool) -> Seq<char> {
    if v {
        "Not connected to server yet. Use '/connect <server>' first."@
    } else {
        "Not connected to server yet. Use 'connect <server>' first."@
    }
}

pub open spec fn nick_usage(v: bool) -> Seq<Seq<char>> {
    if v {
        seq!["Usage: /nick <nickname>"@]
    } else {
        seq!["Usage: nick <nickname>"@]
    }
}

pub open spec fn connect_usage(v: bool) -> Seq<Seq<char>> {
    if v {
        seq!["Usage: /connect <server_name|server:port>"@]
    } else {
        seq![
            "Usage: connect <server_name|server:port>"@,
            "Example: connect Libera"@,
            "Example: connect irc.example.org:6667"@,
        ]
    }
}

pub open spec fn join_usage(v: bool) -> Seq<Seq<char>> {
    if v {
        seq!["Usage: /join <#channel>"@]
    } else {
        seq!["Usage: join <#channel>"@, "Example: join #rust"@]
    }
}

pub open spec fn msg_usage(v: bool) -> Seq<Seq<char>> {
    if v {
        seq!["Usage: /msg <user> <message>"@]
    } else {
        seq!["Usage: msg <user> <message>"@, "Example: msg Alice Hello!"@]
    }
}

/// The effect of a private message `m` to `t` once its preconditions hold:
/// on the first connected server a direct-message channel is ensured and
/// becomes the destination, and the message is echoed there; the tree is
/// rebuilt either way.
pub open spec fn msg_sent(o: App, n: App, t: Seq<char>, m: Seq<char>) -> bool {
    match first_connected(o.servers@) {
        Some(p) => {
            let k = (o.servers@[p].name@, t);
            &&& dm_ensured(o.servers@, n.servers@, p, t, Some(1usize))
            &&& n.current_key() == Some(k)
            &&& n.channel@ == t
            &&& n.channel_messages.view() == store_apply(
                o.channel_messages.view(),
                k,
                LogEdit::Append(user_line(o.current_nick@, m)),
            )
            &&& tree_rebuilt(o, n)
            &&& n == (App {
                servers: n.servers,
                current_channel: n.current_channel,
                channel: n.channel,
                channel_messages: n.channel_messages,
                server_tree: n.server_tree,
                server_tree_index: n.server_tree_index,
                ..o
            })
        },
        None => {
            &&& tree_rebuilt(o, n)
            &&& n == (App { server_tree: n.server_tree, server_tree_index: n.server_tree_index, ..o })
        },
    }
}

/// What interpreting a read line does, in Command mode (`v` false) or in
/// the line-oriented mode (`v` true); `out` are the intents handed out.
pub open spec fn line_effect(o: App, n: App, out: Seq<Intent>, c: LineView, line: Seq<char>, v: bool) -> bool {
    match c {
        LineView::Quit => n == (App { should_quit: true, ..o }) && out.len() == 0,
        LineView::Clear => {
            &&& n.channel_messages.view() == o.current_applied(LogEdit::Clear)
            &&& n == (App { channel_messages: n.channel_messages, ..o })
            &&& out.len() == 0
        },
        LineView::Vimless => {
            &&& tree_rebuilt(o, n)
            &&& n == (App {
                vim_mode: VimMode::Vimless,
                prev_mode: Some(VimMode::Vimless),
                server_tree: n.server_tree,
                server_tree_index: n.server_tree_index,
                ..o
            })
            &&& out.len() == 0
        },
        LineView::Vim => n == (App { vim_mode: VimMode::Normal, prev_mode: None, ..o }) && out.len()
            == 0,
        LineView::Nick(a) => match a {
            None => only_noticed(o, n, nick_usage(v)) && out.len() == 0,
            Some(k) => {
                &&& n.current_nick@ == k
                &&& n == (App { current_nick: n.current_nick, ..o })
                &&& out == seq![Intent::Nick(k)]
            },
        },
        LineView::Connect(a) => if o.is_connected {
            only_noticed(o, n, seq!["Already connected."@]) && out.len() == 0
        } else {
            match a {
                None => only_noticed(o, n, connect_usage(v)) && out.len() == 0,
                Some(s) => if s.len() == 0 {
                    only_noticed(o, n, seq!["Please specify a server"@]) && out.len() == 0
                } else {
                    only_noticed(o, n, seq!["Connecting to "@ + s + "..."@]) && out == seq![
                        Intent::Connect(s),
                    ]
                },
            }
        },
        LineView::Disconnect => if !o.is_connected {
            only_noticed(o, n, seq!["Not connected."@]) && out.len() == 0
        } else {
            only_noticed(App { is_connected: false, ..o }, n, seq!["Disconnected from server."@])
                && out == seq![Intent::Disconnect]
        },
        LineView::Join(a) => if !o.is_connected {
            only_noticed(o, n, seq![not_connected_text(v)]) && out.len() == 0
        } else {
            match a {
                None => only_noticed(o, n, join_usage(v)) && out.len() == 0,
                Some(ch) => if ch.len() == 0 || ch[0] != '#' {
                    only_noticed(o, n, seq!["Channel must start with #"@]) && out.len() == 0
                } else {
                    match first_connected(o.servers@) {
                        None => only_noticed(o, n, seq!["Error: No server connected"@]) && out.len()
                            == 0,
                        Some(p) => {
                            &&& opened(o, n, o.servers@[p].name@, ch)
                            &&& out == seq![Intent::Join(ch), Intent::SetCurrentChannel(ch)]
                            &&& if v {
                                &&& tree_rebuilt(o, n)
                                &&& n == (App {
                                    current_channel: n.current_channel,
                                    channel: n.channel,
                                    channel_messages: n.channel_messages,
                                    server_tree: n.server_tree,
                                    server_tree_index: n.server_tree_index,
                                    ..o
                                })
                            } else {
                                n == (App {
                                    current_channel: n.current_channel,
                                    channel: n.channel,
                                    channel_messages: n.channel_messages,
                                    ..o
                                })
                            }
                        },
                    }
                },
            }
        },
        LineView::Msg(a) => if !o.is_connected {
            only_noticed(o, n, seq![not_connected_text(v)]) && out.len() == 0
        } else {
            match a {
                None => only_noticed(o, n, msg_usage(v)) && out.len() == 0,
                Some((t, m)) => if m.len() == 0 {
                    only_noticed(o, n, seq!["Message cannot be empty"@]) && out.len() == 0
                } else {
                    msg_sent(o, n, t, m) && out == seq![
                        Intent::Join(t),
                        Intent::PrivMsg(m),
                        Intent::SetCurrentChannel(t),
                    ]
                },
            }
        },
        LineView::ListServers => n == o && out == seq![Intent::ListServers],
        LineView::AddServer(a) => match a {
            AddServerView::Missing => only_noticed(
                o,
                n,
                seq![
                    "Usage: add_server <name> <address> <port> [tls]"@,
                    "Example: add_server MyServer irc.example.org 6697 true"@,
                ],
            ) && out.len() == 0,
            AddServerView::BadPort => only_noticed(o, n, seq!["Invalid port number"@]) && out.len()
                == 0,
            AddServerView::Valid { name, address, port, use_tls } => n == o && out == seq![
                Intent::AddServer { name, address, port, use_tls },
            ],
        },
        LineView::RemoveServer(a) => match a {
            None => only_noticed(o, n, seq!["Usage: remove_server <name>"@]) && out.len() == 0,
            Some(name) => n == o && out == seq![Intent::RemoveServer(name)],
        },
        LineView::Status => only_noticed(
            o,
            n,
            seq![
                "Status: "@ + if o.is_connected {
                    "Connected"@
                } else {
                    "Disconnected"@
                },
                "Channel: "@ + if o.channel@.len() == 0 {
                    "No channel joined"@
                } else {
                    o.channel@
                },
            ],
        ) && out.len() == 0,
        LineView::Empty => n == o && out.len() == 0,
        LineView::Unknown => if v {
            &&& n.channel_messages.view() == o.current_applied(
                LogEdit::Append(user_line(o.current_nick@, line)),
            )
            &&& n == (App { channel_messages: n.channel_messages, ..o })
            &&& out == seq![Intent::PrivMsg(line)]
        } else {
            only_noticed(
                o,
                n,
                seq!["Unknown command: "@ + line + ". Type 'help' for available commands."@],
            ) && out.len() == 0
        },
    }
}

fn one(c: IrcCommand) -> (r: Vec<IrcCommand>)
    ensures
        intents(r@) == seq![c@],
{
    let mut v: Vec<IrcCommand> = Vec::new();
    let ghost cv = c@;
    v.push(c);
    assert(intents(v@) =~= seq![cv]);
    v
}

fn none() -> (r: Vec<IrcCommand>)
    ensures
        intents(r@).len() == 0,
{
    Vec::new()
}

fn intents2(a: IrcCommand, b: IrcCommand) -> (r: Vec<IrcCommand>)
    ensures
        intents(r@) == seq![a@, b@],
{
    let ghost av = a@;
    let ghost bv = b@;
    let mut v: Vec<IrcCommand> = Vec::new();
    v.push(a);
    v.push(b);
    assert(intents(v@) =~= seq![av, bv]);
    v
}

fn intents3(a: IrcCommand, b: IrcCommand, c: IrcCommand) -> (r: Vec<IrcCommand>)
    ensures
        intents(r@) == seq![a@, b@, c@],
{
    let ghost av = a@;
    let ghost bv = b@;
    let ghost cv = c@;
    let mut v: Vec<IrcCommand> = Vec::new();
    v.push(a);
    v.push(b);
    v.push(c);
    assert(intents(v@) =~= seq![av, bv, cv]);
    v
}

impl App {
    fn run_connect(&mut self, a: Option<Vec<char>>, v: bool, Ghost(line): Ghost<Seq<char>>) -> (r: Vec<IrcCommand>)
        requires
            old(self).wf(),
        ensures
            final(self).wf(),
            line_effect(*old(self), *final(self), intents(r@), LineView::Connect(opt_view(a)), line, v),
    {
        if self.is_connected {
            self.notify("Already connected.");
            return none();
        }
        match a {
            None => {
                if v {
                    self.notify("Usage: /connect <server_name|server:port>");
                } else {
                    self.notify3(
                        "Usage: connect <server_name|server:port>",
                        "Example: connect Libera",
                        "Example: connect irc.example.org:6667",
                    );
                }
                none()
            },
            Some(server) => {
                if server.len() == 0 {
                    self.notify("Please specify a server");
                    return none();
                }
                let name = string_of(&server);
                let mut text = String::from_str("Connecting to ");
                text.append(name.as_str());
                text.append("...");
                self.notify(text.as_str());
                one(IrcCommand::Connect(name))
            },
        }
    }

    fn run_disconnect(&mut self, v: bool, Ghost(line): Ghost<Seq<char>>) -> (r: Vec<IrcCommand>)
        requires
            old(self).wf(),
        ensures
            final(self).wf(),
            line_effect(*old(self), *final(self), intents(r@), LineView::Disconnect, line, v),
    {
        if !self.is_connected {
            self.notify("Not connected.");
            return none();
        }
        self.is_connected = false;
        self.notify("Disconnected from server.");
        one(IrcCommand::Disconnect)
    }

    fn run_join(&mut self, a: Option<Vec<char>>, v: bool, Ghost(line): Ghost<Seq<char>>) -> (r: Vec<IrcCommand>)
        requires
            old(self).wf(),
        ensures
            final(self).wf(),
            line_effect(*old(self), *final(self), intents(r@), LineView::Join(opt_view(a)), line, v),
    {
        if !self.is_connected {
            if v {
                self.notify("Not connected to server yet. Use '/connect <server>' first.");
            } else {
                self.notify("Not connected to server yet. Use 'connect <server>' first.");
            }
            return none();
        }
        match a {
            None => {
                if v {
                    self.notify("Usage: /join <#channel>");
                } else {
                    self.notify2("Usage: join <#channel>", "Example: join #rust");
                }
                none()
            },
            Some(ch) => {
                if ch.len() == 0 || ch[0] != '#' {
                    self.notify("Channel must start with #");
                    return none();
                }
                match self.first_connected_server() {
                    None => {
                        self.notify("Error: No server connected");
                        none()
                    },
                    Some(p) => {
                        let server = self.servers[p].name.clone();
                        let name = string_of(&ch);
                        self.open_destination(server.as_str(), name.as_str());
                        if v {
                            self.rebuild_server_tree();
                        }
                        intents2(IrcCommand::Join(name.clone()), IrcCommand::SetCurrentChannel(name))
                    },
                }
            },
        }
    }

    fn run_msg(&mut self, a: Option<(Vec<char>, Vec<char>)>, v: bool, Ghost(line): Ghost<Seq<char>>) -> (r: Vec<IrcCommand>)
        requires
            old(self).wf(),
        ensures
            final(self).wf(),
            line_effect(
                *old(self),
                *final(self),
                intents(r@),
                LineView::Msg(
                    match a {
                        Some(p) => Some((p.0@, p.1@)),
                        None => None,
                    },
                ),
                line,
                v,
            ),
    {
        if !self.is_connected {
            if v {
                self.notify("Not connected to server yet. Use '/connect <server>' first.");
            } else {
                self.notify("Not connected to server yet. Use 'connect <server>' first.");
            }
            return none();
        }
        match a {
            None => {
                if v {
                    self.notify("Usage: /msg <user> <message>");
                } else {
                    self.notify2("Usage: msg <user> <message>", "Example: msg Alice Hello!");
                }
                none()
            },
            Some((t, m)) => {
                if m.len() == 0 {
                    self.notify("Message cannot be empty");
                    return none();
                }
                let target = string_of(&t);
                let message = string_of(&m);
                self.send_private(target.as_str(), message.as_str());
                intents3(
                    IrcCommand::Join(target.clone()),
                    IrcCommand::PrivMsg(message),
                    IrcCommand::SetCurrentChannel(target),
                )
            },
        }
    }

    /// Opens a direct-message destination with `target` on the first
    /// connected server and echoes `message` there; rebuilds the tree.
    pub fn send_private(&mut self, target: &str, message: &str)
        requires
            old(self).wf(),
        ensures
            final(self).wf(),
            msg_sent(*old(self), *final(self), target@, message@),
    {
        match self.first_connected_server() {
            Some(p) => {
                let server = self.servers[p].name.clone();
                self.ensure_dm_channel(p, target, Some(1));
                let ghost mid = *self;
                self.open_destination(server.as_str(), target);
                let nick = self.current_nick.clone();
                self.push_user_msg_to_current(nick.as_str(), message);
                proof {
                    let k = (server@, target@);
                    let m0 = mid.channel_messages.view();
                    assert(store_apply(crate::dispatch::ensured(m0, k), k, LogEdit::Append(user_line(nick@, message@)))
                        =~= store_apply(m0, k, LogEdit::Append(user_line(nick@, message@))));
                }
            },
            None => {},
        }
        self.rebuild_server_tree();
    }

    fn run_status(&mut self, v: bool, Ghost(line): Ghost<Seq<char>>) -> (r: Vec<IrcCommand>)
        requires
            old(self).wf(),
        ensures
            final(self).wf(),
            line_effect(*old(self), *final(self), intents(r@), LineView::Status, line, v),
    {
        let mut a = String::from_str("Status: ");
        if self.is_connected {
            a.append("Connected");
        } else {
            a.append("Disconnected");
        }
        let mut b = String::from_str("Channel: ");
        if self.channel.as_str().is_empty() {
            b.append("No channel joined");
        } else {
            b.append(self.channel.as_str());
        }
        self.notify2(a.as_str(), b.as_str());
        none()
    }

    fn run_line(&mut self, c: LineCommand, line: &str, v: bool) -> (r: Vec<IrcCommand>)
        requires
            old(self).wf(),
        ensures
            final(self).wf(),
            line_effect(*old(self), *final(self), intents(r@), c@, line@, v),
    {
        match c {
            LineCommand::Quit => {
                self.should_quit = true;
                none()
            },
            LineCommand::Clear => {
                self.clear_messages();
                none()
            },
            LineCommand::Vimless => {
                self.vim_mode = VimMode::Vimless;
                self.prev_mode = Some(VimMode::Vimless);
                self.rebuild_server_tree();
                none()
            },
            LineCommand::Vim => {
                self.vim_mode = VimMode::Normal;
                self.prev_mode = None;
                none()
            },
            LineCommand::Nick(a) => match a {
                None => {
                    if v {
                        self.notify("Usage: /nick <nickname>");
                    } else {
                        self.notify("Usage: nick <nickname>");
                    }
                    none()
                },
                Some(k) => {
                    let nick = string_of(&k);
                    self.current_nick = nick.clone();
                    one(IrcCommand::Nick(nick))
                },
            },
            LineCommand::Connect(a) => self.run_connect(a, v, Ghost(line@)),
            LineCommand::Disconnect => self.run_disconnect(v, Ghost(line@)),
            LineCommand::Join(a) => self.run_join(a, v, Ghost(line@)),
            LineCommand::Msg(a) => self.run_msg(a, v, Ghost(line@)),
            LineCommand::ListServers => one(IrcCommand::ListServers),
            LineCommand::AddServer(a) => match a {
                AddServerArgs::Missing => {
                    self.notify2(
                        "Usage: add_server <name> <address> <port> [tls]",
                        "Example: add_server MyServer irc.example.org 6697 true",
                    );
                    none()
                },
                AddServerArgs::BadPort => {
                    self.notify("Invalid port number");
                    none()
                },
                AddServerArgs::Valid { name, address, port, use_tls } => one(
                    IrcCommand::AddServer {
                        name: string_of(&name),
                        address: string_of(&address),
                        port,
                        use_tls,
                    },
                ),
            },
            LineCommand::RemoveServer(a) => match a {
                None => {
                    self.notify("Usage: remove_server <name>");
                    none()
                },
                Some(name) => one(IrcCommand::RemoveServer(string_of(&name))),
            },
            LineCommand::Status => self.run_status(v, Ghost(line@)),
            LineCommand::Empty => none(),
            LineCommand::Unknown => {
                if v {
                    let nick = self.current_nick.clone();
                    self.push_user_msg_to_current(nick.as_str(), line);
                    one(IrcCommand::PrivMsg(String::from_str(line)))
                } else {
                    let mut text = String::from_str("Unknown command: ");
                    text.append(line);
                    text.append(". Type 'help' for available commands.");
                    self.notify(text.as_str());
                    none()
                }
            },
        }
    }

    /// Interprets a submitted Command-mode line; returns the intents for the
    /// protocol side. Every malformed line only adds a diagnostic line.
    pub fn execute_command(&mut self, cmd: &str) -> (r: Vec<IrcCommand>)
        requires
            old(self).wf(),
        ensures
            final(self).wf(),
            line_effect(*old(self), *final(self), intents(r@), command_line(cmd@), cmd@, false),
    {
        let c = parse_command_line(&chars_of(cmd));
        self.run_line(c, cmd, false)
    }

    /// Submits the compose buffer in the line-oriented mode: the buffer is
    /// drained and the line interpreted (`/`-verbs, else chat text).
    pub fn execute_vimless(&mut self) -> (r: Vec<IrcCommand>)
        requires
            old(self).wf(),
        ensures
            final(self).wf(),
            final(self).msg@.len() == 0,
            final(self).msg.cursor == 0,
            line_effect(
                App { msg: final(self).msg, ..*old(self) },
                *final(self),
                intents(r@),
                vimless_line(old(self).msg@),
                old(self).msg@,
                true,
            ),
    {
        let line = self.take_msg_text();
        let c = parse_vimless_line(&chars_of(line.as_str()));
        self.run_line(c, line.as_str(), true)
    }
}

} // verus!
