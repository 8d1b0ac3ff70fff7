use vstd::prelude::*;
use vstd::string::StringExecFns;
use crate::app::App;
use crate::chars::{chars_of, string_of};
use crate::dispatch::{ensured, noticed, tree_rebuilt};
use crate::irc::UiEvent;
use crate::messages::{system_line, user_line};
use crate::store::{same_text, ChannelContext, LogEdit};
use crate::tree::{ChannelInfo, ClientInfo, ServerInfo};
use crate::words::{split_once, sub_chars};

verus! {

/// Whether `p` occurs in `s`.
pub open spec fn contains(s: Seq<char>, p: Seq<char>) -> bool {
    exists|i: int| 0 <= i && i + p.len() <= s.len() && #[trigger] s.subrange(i, i + p.len()) == p
}

/// A raw line of the form `<nick>text`: the nick and the text after `>`.
pub open spec fn user_message(s: Seq<char>) -> Option<(Seq<char>, Seq<char>)> {
    if s.len() > 0 && s[0] == '<' {
        match split_once(s.drop_first(), '>').1 {
            Some(t) => Some((split_once(s.drop_first(), '>').0, t)),
            None => None,
        }
    } else {
        None
    }
}

/// Position of the first server named `name` at or after `i`.
pub open spec fn first_named_from(s: Seq<ServerInfo>, name: Seq<char>, i: int) -> Option<int>
    decreases s.len() - i,
{
    if i < 0 || i >= s.len() {
        None
    } else if s[i].name@ == name {
        Some(i)
    } else {
        first_named_from(s, name, i + 1)
    }
}

/// The first server named `name` has its connected flag set to `flag`.
pub open spec fn connection_marked(o: Seq<ServerInfo>, n: Seq<ServerInfo>, name: Seq<char>, flag: bool) -> bool {
    match first_named_from(o, name, 0) {
        Some(p) => n == o.update(p, ServerInfo { is_connected: flag, ..o[p] }),
        None => n == o,
    }
}

/// Position of the first channel of `s` named `name` at or after `j`.
pub open spec fn first_channel_from(s: ServerInfo, name: Seq<char>, j: int) -> Option<int>
    decreases s.channels@.len() - j,
{
    if j < 0 || j >= s.channels@.len() {
        None
    } else if s.channels@[j].name@ == name {
        Some(j)
    } else {
        first_channel_from(s, name, j + 1)
    }
}

/// Channel `name` of server `o` updated with the reported details, or
/// appended with them when the server did not know it.
pub open spec fn channel_reported(
    o: ServerInfo,
    n: ServerInfo,
    name: Seq<char>,
    topic: Option<String>,
    count: usize,
    joined: bool,
    dm: bool,
) -> bool {
    &&& n == (ServerInfo { channels: n.channels, ..o })
    &&& match first_channel_from(o, name, 0) {
        Some(j) => n.channels@ == o.channels@.update(
            j,
            ChannelInfo {
                topic,
                client_count: Some(count),
                is_joined: joined,
                is_dm: dm,
                ..o.channels@[j]
            },
        ),
        None => {
            &&& n.channels@.len() == o.channels@.len() + 1
            &&& n.channels@.drop_last() == o.channels@
            &&& n.channels@.last().name@ == name
            &&& n.channels@.last().topic == topic
            &&& n.channels@.last().client_count == Some(count)
            &&& n.channels@.last().is_joined == joined
            &&& n.channels@.last().is_dm == dm
        },
    }
}

/// What applying an inbound event does.
pub open spec fn event_effect(o: App, n: App, ev: UiEvent) -> bool {
    match ev {
        UiEvent::Connected { nick, server_name } => {
            let k = (server_name@, "status"@);
            &&& n.is_connected
            &&& n.current_key() == Some(k)
            &&& n.channel_messages.view() == noticed(
                ensured(o.channel_messages.view(), k),
                Some(k),
                seq![
                    seq!['\u{2714}'] + " Connected as "@ + nick@,
                    "':join #channel' to join a channel"@,
                ],
            )
            &&& connection_marked(o.servers@, n.servers@, server_name@, true)
            &&& n == (App {
                is_connected: true,
                current_channel: n.current_channel,
                channel_messages: n.channel_messages,
                servers: n.servers,
                ..o
            })
        },
        UiEvent::Disconnected { server_name } => {
            &&& connection_marked(o.servers@, n.servers@, server_name@, false)
            &&& n == (App { is_connected: false, servers: n.servers, ..o })
        },
        UiEvent::Message(msg) => {
            &&& n.channel_messages.view() == o.current_applied(
                match user_message(msg@) {
                    Some((nick, text)) => LogEdit::Append(user_line(nick, text)),
                    None => LogEdit::Append(system_line(msg@)),
                },
            )
            &&& n == (App { channel_messages: n.channel_messages, ..o })
        },
        UiEvent::Error(err) => {
            &&& n.channel_messages.view() == o.current_applied(
                LogEdit::Append(system_line(seq!['\u{2716}'] + " IRC error: "@ + err@)),
            )
            &&& n == (App {
                channel_messages: n.channel_messages,
                is_connected: if contains(err@, "connection"@) || contains(err@, "connect"@) {
                    false
                } else {
                    o.is_connected
                },
                ..o
            })
        },
        UiEvent::ChannelUpdate {
            server_name,
            channel_name,
            topic,
            client_count,
            clients,
            is_joined,
            is_dm,
        } => {
            let k = (server_name@, channel_name@);
            &&& n.servers@.len() == o.servers@.len()
            &&& forall|i: int|
                0 <= i < o.servers@.len() ==> if (#[trigger] o.servers@[i]).name@ == server_name@ {
                    channel_reported(
                        o.servers@[i],
                        n.servers@[i],
                        channel_name@,
                        topic,
                        client_count,
                        is_joined,
                        is_dm,
                    )
                } else {
                    n.servers@[i] == o.servers@[i]
                }
            &&& n.channel_messages.view() == ensured(o.channel_messages.view(), k)
            &&& if o.current_key() == Some(k) {
                &&& n.clients@.len() == clients@.len()
                &&& forall|i: int| 0 <= i < clients@.len() ==> (#[trigger] n.clients@[i]).name == clients@[i]
            } else {
                n.clients == o.clients
            }
            &&& tree_rebuilt(o, n)
            &&& n == (App {
                servers: n.servers,
                channel_messages: n.channel_messages,
                clients: n.clients,
                server_tree: n.server_tree,
                server_tree_index: n.server_tree_index,
                ..o
            })
        },
    }
}

/// Whether `p` occurs in `s`.
pub fn contains_text(s: &Vec<char>, p: &str) -> (r: bool)
    ensures
        r == contains(s@, p@),
{
    let pc = chars_of(p);
    if pc.len() > s.len() {
        proof {
            assert forall|i: int| 0 <= i && i + p@.len() <= s@.len() implies #[trigger] s@.subrange(i, i + p@.len()) != p@ by {}
        }
        return false;
    }
    if pc.len() == 0 {
        proof {
            assert(s@.subrange(0int, 0int + p@.len()) =~= p@);
        }
        return true;
    }
    let mut i: usize = 0;
    let n = s.len();
    let last = n - pc.len();
    while i <= last
        invariant
            pc@ == p@,
            pc@.len() <= s@.len(),
            1 <= pc@.len(),
            n == s@.len(),
            last == s@.len() - pc@.len(),
            i <= last + 1,
            forall|q: int| 0 <= q < i ==> #[trigger] s@.subrange(q, q + pc@.len()) != p@,
        decreases s@.len() - i,
    {
        let mut j: usize = 0;
        let mut same = true;
        while j < pc.len()
            invariant
                pc@ == p@,
                i <= last,
                n == s@.len(),
                last == s@.len() - pc@.len(),
                j <= pc@.len(),
                same == (forall|q: int| 0 <= q < j ==> s@[i + q] == pc@[q]),
            decreases pc@.len() - j,
        {
            if s[i + j] != pc[j] {
                same = false;
            }
            j = j + 1;
        }
        if same {
            proof {
                assert(s@.subrange(i as int, i + pc@.len()) =~= p@);
            }
            return true;
        }
        proof {
            let q = choose|q: int| 0 <= q < pc@.len() && s@[i + q] != pc@[q];
            assert(s@.subrange(i as int, i + pc@.len())[q] != p@[q]);
        }
        i = i + 1;
    }
    proof {
        assert forall|q: int| 0 <= q && q + p@.len() <= s@.len() implies #[trigger] s@.subrange(q, q + p@.len()) != p@ by {
            assert(q < i);
        }
    }
    false
}

/// Splits a raw line of the form `<nick>text`.
pub fn read_user_message(s: &str) -> (r: Option<(String, String)>)
    ensures
        match r {
            Some(p) => user_message(s@) == Some((p.0@, p.1@)),
            None => user_message(s@) is None,
        },
{
    let cs = chars_of(s);
    if cs.len() == 0 || cs[0] != '<' {
        return None;
    }
    let rest = sub_chars(&cs, 1, cs.len());
    proof {
        assert(rest@ =~= s@.drop_first());
    }
    let (nick, after) = crate::words::split_first(&rest, '>');
    match after {
        Some(t) => Some((string_of(&nick), string_of(&t))),
        None => None,
    }
}

fn clone_topic(t: &Option<String>) -> (r: Option<String>)
    ensures
        r == *t,
{
    match t {
        Some(s) => Some(s.clone()),
        None => None,
    }
}

impl App {
    /// Sets the connected flag of the first server named `name`.
    fn mark_connection(&mut self, name: &str, flag: bool)
        ensures
            connection_marked(old(self).servers@, final(self).servers@, name@, flag),
            *final(self) == (App { servers: final(self).servers, ..*old(self) }),
    {
        let mut i: usize = 0;
        while i < self.servers.len()
            invariant
                *self == *old(self),
                i <= self.servers@.len(),
                first_named_from(self.servers@, name@, 0) == first_named_from(self.servers@, name@, i as int),
            decreases self.servers@.len() - i,
        {
            if same_text(self.servers[i].name.as_str(), name) {
                self.servers[i].is_connected = flag;
                proof {
                    assert(self.servers@ =~= old(self).servers@.update(
                        i as int,
                        ServerInfo { is_connected: flag, ..old(self).servers@[i as int] },
                    ));
                }
                return;
            }
            i = i + 1;
        }
    }

    /// Records a reported channel on server `i`.
    fn report_channel(
        &mut self,
        i: usize,
        name: &str,
        topic: &Option<String>,
        count: usize,
        joined: bool,
        dm: bool,
    )
        requires
            i < old(self).servers@.len(),
        ensures
            final(self).servers@.len() == old(self).servers@.len(),
            channel_reported(
                old(self).servers@[i as int],
                final(self).servers@[i as int],
                name@,
                *topic,
                count,
                joined,
                dm,
            ),
            forall|q: int| 0 <= q < old(self).servers@.len() && q != i ==> final(self).servers@[q] == old(self).servers@[q],
            *final(self) == (App { servers: final(self).servers, ..*old(self) }),
    {
        let n = self.servers[i].channels.len();
        let mut j: usize = 0;
        while j < n
            invariant
                *self == *old(self),
                i < self.servers@.len(),
                n == self.servers@[i as int].channels@.len(),
                j <= n,
                first_channel_from(self.servers@[i as int], name@, 0) == first_channel_from(
                    self.servers@[i as int],
                    name@,
                    j as int,
                ),
            decreases n - j,
        {
            if same_text(self.servers[i].channels[j].name.as_str(), name) {
                let ghost before = self.servers@[i as int].channels@[j as int];
                self.servers[i].channels[j].topic = clone_topic(topic);
                self.servers[i].channels[j].client_count = Some(count);
                self.servers[i].channels[j].is_joined = joined;
                self.servers[i].channels[j].is_dm = dm;
                proof {
                    assert(self.servers@[i as int].channels@ =~= old(self).servers@[i as int].channels@.update(
                        j as int,
                        ChannelInfo {
                            topic: *topic,
                            client_count: Some(count),
                            is_joined: joined,
                            is_dm: dm,
                            ..before
                        },
                    ));
                }
                return;
            }
            j = j + 1;
        }
        let c = ChannelInfo {
            name: name.to_owned(),
            topic: clone_topic(topic),
            client_count: Some(count),
            is_joined: joined,
            is_dm: dm,
        };
        self.servers[i].channels.push(c);
        proof {
            assert(self.servers@[i as int].channels@.drop_last() =~= old(self).servers@[i as int].channels@);
        }
    }

    /// Applies an event reported by the protocol side. A channel update for
    /// a destination never opened here creates its log and roster entry.
    pub fn apply_ui_event(&mut self, ev: UiEvent)
        requires
            old(self).wf(),
        ensures
            final(self).wf(),
            event_effect(*old(self), *final(self), ev),
    {
        match ev {
            UiEvent::Connected { nick, server_name } => {
                self.is_connected = true;
                let status = String::from_str("status");
                self.current_channel = Some(
                    ChannelContext { server_name: server_name.clone(), channel_name: status.clone() },
                );
                self.channel_messages.ensure(server_name.as_str(), status.as_str());
                let mut text = String::new();
                crate::app::push_char(&mut text, '\u{2714}');
                text.append(" Connected as ");
                text.append(nick.as_str());
                self.notify2(text.as_str(), "':join #channel' to join a channel");
                self.mark_connection(server_name.as_str(), true);
                proof {
                    assert(text@ =~= seq!['\u{2714}'] + " Connected as "@ + nick@);
                }
            },
            UiEvent::Disconnected { server_name } => {
                self.is_connected = false;
                self.mark_connection(server_name.as_str(), false);
            },
            UiEvent::Message(msg) => {
                match read_user_message(msg.as_str()) {
                    Some((nick, text)) => self.push_user_msg_to_current(nick.as_str(), text.as_str()),
                    None => self.push_system_to_current(msg),
                }
            },
            UiEvent::Error(err) => {
                let mut text = String::new();
                crate::app::push_char(&mut text, '\u{2716}');
                text.append(" IRC error: ");
                text.append(err.as_str());
                self.push_system_to_current(text);
                let e = chars_of(err.as_str());
                if contains_text(&e, "connection") || contains_text(&e, "connect") {
                    self.is_connected = false;
                }
            },
            UiEvent::ChannelUpdate {
                server_name,
                channel_name,
                topic,
                client_count,
                clients,
                is_joined,
                is_dm,
            } => {
                let n = self.servers.len();
                let mut i: usize = 0;
                let ghost o = *self;
                while i < n
                    invariant
                        n == self.servers@.len() == o.servers@.len(),
                        i <= n,
                        forall|q: int|
                            0 <= q < n ==> if q < i && (#[trigger] o.servers@[q]).name@ == server_name@ {
                                channel_reported(
                                    o.servers@[q],
                                    self.servers@[q],
                                    channel_name@,
                                    topic,
                                    client_count,
                                    is_joined,
                                    is_dm,
                                )
                            } else {
                                self.servers@[q] == o.servers@[q]
                            },
                        *self == (App { servers: self.servers, ..o }),
                    decreases n - i,
                {
                    if same_text(self.servers[i].name.as_str(), server_name.as_str()) {
                        self.report_channel(
                            i,
                            channel_name.as_str(),
                            &topic,
                            client_count,
                            is_joined,
                            is_dm,
                        );
                    }
                    i = i + 1;
                }
                let is_current = match &self.current_channel {
                    Some(c) => same_text(c.server_name.as_str(), server_name.as_str()) && same_text(
                        c.channel_name.as_str(),
                        channel_name.as_str(),
                    ),
                    None => false,
                };
                if is_current {
                    let mut list: Vec<ClientInfo> = Vec::new();
                    let mut j: usize = 0;
                    while j < clients.len()
                        invariant
                            j <= clients@.len(),
                            list@.len() == j,
                            forall|q: int| 0 <= q < j ==> (#[trigger] list@[q]).name == clients@[q],
                        decreases clients@.len() - j,
                    {
                        list.push(ClientInfo { name: clients[j].clone() });
                        j = j + 1;
                    }
                    self.clients = list;
                }
                self.channel_messages.ensure(server_name.as_str(), channel_name.as_str());
                self.rebuild_server_tree();
            },
        }
    }
}

} // verus!
