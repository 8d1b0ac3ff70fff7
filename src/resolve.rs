use vstd::prelude::*;
use vstd::string::StringExecFns;
use crate::app::App;
use crate::dispatch::{dm_ensured, ensured, first_connected, noticed, only_noticed, opened};
use crate::interpret::not_connected_text;
use crate::irc::{intents, Intent, IrcCommand};
use crate::store::ChannelContext;
use crate::tree::{toggled, ServerTreeItem};

verus! {

/// What acting on tree row `idx` does (Enter in Server mode, a double
/// click on the tree).
pub open spec fn tree_entry_effect(o: App, n: App, out: Seq<Intent>, idx: int) -> bool {
    if idx < 0 || idx >= o.server_tree@.len() {
        n == o && out.len() == 0
    } else {
        match o.server_tree@[idx] {
            ServerTreeItem::Server { server_idx } => {
                let s = server_idx as int;
                if s >= o.servers@.len() {
                    n == o && out.len() == 0
                } else {
                    let name = o.servers@[s].name@;
                    if o.servers@[s].is_connected {
                        let text = "Disconnecting from "@ + name + "..."@;
                        &&& n.channel_messages.view() == noticed(
                            o.channel_messages.view(),
                            o.current_key(),
                            seq![text],
                        )
                        &&& n.current_channel is None
                        &&& n.channel@.len() == 0
                        &&& n.servers@ == toggled(o.servers@, s)
                        &&& n == (App {
                            channel_messages: n.channel_messages,
                            current_channel: None,
                            channel: n.channel,
                            servers: n.servers,
                            ..o
                        })
                        &&& out == seq![Intent::Disconnect]
                    } else {
                        let text = "Connecting to "@ + name + "..."@;
                        &&& n.channel_messages.view() == ensured(
                            noticed(o.channel_messages.view(), o.current_key(), seq![text]),
                            (name, "status"@),
                        )
                        &&& n.current_key() == Some((name, "status"@))
                        &&& n.servers@ == toggled(o.servers@, s)
                        &&& n == (App {
                            channel_messages: n.channel_messages,
                            current_channel: n.current_channel,
                            servers: n.servers,
                            ..o
                        })
                        &&& out == seq![Intent::Disconnect, Intent::Connect(name)]
                    }
                }
            },
            ServerTreeItem::Channel { server_idx, channel_idx } => {
                let s = server_idx as int;
                let c = channel_idx as int;
                if s >= o.servers@.len() || c >= o.servers@[s].channels@.len() {
                    n == o && out.len() == 0
                } else {
                    let name = o.servers@[s].name@;
                    let ch = o.servers@[s].channels@[c].name@;
                    if o.servers@[s].is_connected {
                        &&& opened(o, n, name, ch)
                        &&& n == (App {
                            current_channel: n.current_channel,
                            channel: n.channel,
                            channel_messages: n.channel_messages,
                            ..o
                        })
                        &&& out == seq![Intent::Join(ch), Intent::SetCurrentChannel(ch)]
                    } else {
                        &&& only_noticed(
                            o,
                            n,
                            seq!["Not connected to server "@ + name + ". Connect first."@],
                        )
                        &&& out.len() == 0
                    }
                }
            },
        }
    }
}

/// What Enter on the selected participant does.
pub open spec fn client_join_effect(o: App, n: App, out: Seq<Intent>) -> bool {
    let i = o.client_index as int;
    if i >= o.clients@.len() {
        n == o && out.len() == 0
    } else if !o.is_connected {
        only_noticed(o, n, seq![not_connected_text(false)]) && out.len() == 0
    } else {
        let name = o.clients@[i].name@;
        match first_connected(o.servers@) {
            None => only_noticed(o, n, seq!["Error: No server connected"@]) && out.len() == 0,
            Some(p) => {
                &&& dm_ensured(o.servers@, n.servers@, p, name, None)
                &&& opened(o, n, o.servers@[p].name@, name)
                &&& n == (App {
                    servers: n.servers,
                    current_channel: n.current_channel,
                    channel: n.channel,
                    channel_messages: n.channel_messages,
                    ..o
                })
                &&& out == seq![Intent::Join(name), Intent::SetCurrentChannel(name)]
            },
        }
    }
}

impl App {
    /// Acts on tree row `tree_index`: a server row connects or disconnects
    /// it and toggles its expansion; a channel row of a connected server
    /// opens the channel. The one operation behind every input surface.
    pub fn resolve_tree_entry(&mut self, tree_index: usize) -> (r: Vec<IrcCommand>)
        requires
            old(self).wf(),
        ensures
            final(self).wf(),
            tree_entry_effect(*old(self), *final(self), intents(r@), tree_index as int),
    {
        if tree_index >= self.server_tree.len() {
            return Vec::new();
        }
        match self.server_tree[tree_index] {
            ServerTreeItem::Server { server_idx } => {
                if server_idx >= self.servers.len() {
                    return Vec::new();
                }
                let name = self.servers[server_idx].name.clone();
                let mut out: Vec<IrcCommand> = Vec::new();
                if self.servers[server_idx].is_connected {
                    out.push(IrcCommand::Disconnect);
                    let mut text = String::from_str("Disconnecting from ");
                    text.append(name.as_str());
                    text.append("...");
                    self.notify(text.as_str());
                    self.current_channel = None;
                    self.channel = String::new();
                    proof {
                        assert(intents(out@) =~= seq![Intent::Disconnect]);
                    }
                } else {
                    out.push(IrcCommand::Disconnect);
                    out.push(IrcCommand::Connect(name.clone()));
                    let mut text = String::from_str("Connecting to ");
                    text.append(name.as_str());
                    text.append("...");
                    self.notify(text.as_str());
                    let status = String::from_str("status");
                    self.current_channel = Some(
                        ChannelContext { server_name: name.clone(), channel_name: status.clone() },
                    );
                    self.channel_messages.ensure(name.as_str(), status.as_str());
                    proof {
                        assert(intents(out@) =~= seq![Intent::Disconnect, Intent::Connect(name@)]);
                    }
                }
                self.toggle_server_expansion(server_idx);
                out
            },
            ServerTreeItem::Channel { server_idx, channel_idx } => {
                if server_idx >= self.servers.len() || channel_idx
                    >= self.servers[server_idx].channels.len() {
                    return Vec::new();
                }
                let name = self.servers[server_idx].name.clone();
                let ch = self.servers[server_idx].channels[channel_idx].name.clone();
                if self.servers[server_idx].is_connected {
                    self.open_destination(name.as_str(), ch.as_str());
                    let mut out: Vec<IrcCommand> = Vec::new();
                    out.push(IrcCommand::Join(ch.clone()));
                    out.push(IrcCommand::SetCurrentChannel(ch.clone()));
                    proof {
                        assert(intents(out@) =~= seq![Intent::Join(ch@), Intent::SetCurrentChannel(ch@)]);
                    }
                    out
                } else {
                    let mut text = String::from_str("Not connected to server ");
                    text.append(name.as_str());
                    text.append(". Connect first.");
                    self.notify(text.as_str());
                    Vec::new()
                }
            },
        }
    }

    /// Opens a direct-message destination with the selected participant.
    pub fn join_selected_client_channel(&mut self) -> (r: Vec<IrcCommand>)
        requires
            old(self).wf(),
        ensures
            final(self).wf(),
            client_join_effect(*old(self), *final(self), intents(r@)),
    {
        if self.client_index >= self.clients.len() {
            return Vec::new();
        }
        if !self.is_connected {
            self.notify("Not connected to server yet. Use 'connect <server>' first.");
            return Vec::new();
        }
        let name = self.clients[self.client_index].name.clone();
        match self.first_connected_server() {
            None => {
                self.notify("Error: No server connected");
                Vec::new()
            },
            Some(p) => {
                let server = self.servers[p].name.clone();
                self.ensure_dm_channel(p, name.as_str(), None);
                self.open_destination(server.as_str(), name.as_str());
                let mut out: Vec<IrcCommand> = Vec::new();
                out.push(IrcCommand::Join(name.clone()));
                out.push(IrcCommand::SetCurrentChannel(name.clone()));
                proof {
                    assert(intents(out@) =~= seq![Intent::Join(name@), Intent::SetCurrentChannel(name@)]);
                }
                out
            },
        }
    }
}

} // verus!
