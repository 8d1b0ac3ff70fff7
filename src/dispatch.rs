use vstd::prelude::*;
use vstd::string::StringExecFns;
use crate::app::App;
use crate::messages::{empty_log, system_line, LogView};
use crate::store::{store_apply, ChannelContext, DestKey, LogEdit};
use crate::tree::{clamp_index, tree_of, ChannelInfo, ServerInfo};

verus! {

/// The store after a system line for each of `lines`, in order, on the log
/// of `key`; unchanged without a key.
pub open spec fn noticed(
    m: Map<DestKey, LogView>,
    key: Option<DestKey>,
    lines: Seq<Seq<char>>,
) -> Map<DestKey, LogView>
    decreases lines.len(),
{
    if lines.len() == 0 {
        m
    } else {
        match key {
            Some(k) => store_apply(
                noticed(m, key, lines.drop_last()),
                k,
                LogEdit::Append(system_line(lines.last())),
            ),
            None => m,
        }
    }
}

/// Only system lines were added to the current log.
pub open spec fn only_noticed(o: App, n: App, lines: Seq<Seq<char>>) -> bool {
    &&& n.channel_messages.view() == noticed(
        o.channel_messages.view(),
        o.current_key(),
        lines,
    )
    &&& n == (App { channel_messages: n.channel_messages, ..o })
}

/// The store with a log for `k`, an empty one when there was none.
pub open spec fn ensured(m: Map<DestKey, LogView>, k: DestKey) -> Map<DestKey, LogView> {
    if m.dom().contains(k) {
        m
    } else {
        m.insert(k, empty_log())
    }
}

/// Position of the first connected server at or after `i`.
pub open spec fn first_connected_from(s: Seq<ServerInfo>, i: int) -> Option<int>
    decreases s.len() - i,
{
    if i < 0 || i >= s.len() {
        None
    } else if s[i].is_connected {
        Some(i)
    } else {
        first_connected_from(s, i + 1)
    }
}

pub open spec fn first_connected(s: Seq<ServerInfo>) -> Option<int> {
    first_connected_from(s, 0)
}

/// Whether a server's channel list has a channel called `name`.
pub open spec fn has_channel(s: ServerInfo, name: Seq<char>) -> bool {
    exists|j: int| 0 <= j < s.channels@.len() && (#[trigger] s.channels@[j]).name@ == name
}

/// Server `p` of `n` is server `p` of `o` with a joined direct-message
/// channel `name` (with `count`) appended when it had no channel so called;
/// the other servers are unchanged.
pub open spec fn dm_ensured(
    o: Seq<ServerInfo>,
    n: Seq<ServerInfo>,
    p: int,
    name: Seq<char>,
    count: Option<usize>,
) -> bool {
    &&& n.len() == o.len()
    &&& forall|i: int| 0 <= i < o.len() && i != p ==> n[i] == o[i]
    &&& n[p] == (ServerInfo { channels: n[p].channels, ..o[p] })
    &&& if has_channel(o[p], name) {
        n[p].channels == o[p].channels
    } else {
        &&& n[p].channels@.len() == o[p].channels@.len() + 1
        &&& n[p].channels@.drop_last() == o[p].channels@
        &&& n[p].channels@.last().name@ == name
        &&& n[p].channels@.last().topic is None
        &&& n[p].channels@.last().client_count == count
        &&& n[p].channels@.last().is_joined
        &&& n[p].channels@.last().is_dm
    }
}

/// `n` views destination `(server, name)`, whose log exists.
pub open spec fn opened(o: App, n: App, server: Seq<char>, name: Seq<char>) -> bool {
    &&& n.current_key() == Some((server, name))
    &&& n.channel@ == name
    &&& n.channel_messages.view() == ensured(o.channel_messages.view(), (server, name))
}

/// The tree of `n` is rebuilt from `n`'s roster.
pub open spec fn tree_rebuilt(o: App, n: App) -> bool {
    &&& n.server_tree@ == tree_of(n.servers@)
    &&& n.server_tree_index == clamp_index(
        o.server_tree_index as int,
        tree_of(n.servers@).len() as int,
    )
}

impl App {
    /// Appends a system line to the current log.
    pub fn notify(&mut self, text: &str)
        requires
            old(self).wf(),
        ensures
            final(self).wf(),
            only_noticed(*old(self), *final(self), seq![text@]),
    {
        let ghost o = *self;
        self.push_system_to_current(String::from_str(text));
        proof {
            let l = seq![text@];
            assert(l.drop_last() =~= Seq::<Seq<char>>::empty());
            assert(l.last() == text@);
            assert(noticed(o.channel_messages.view(), o.current_key(), l.drop_last())
                == o.channel_messages.view());
        }
    }

    /// Appends system lines `a` then `b` to the current log.
    pub fn notify2(&mut self, a: &str, b: &str)
        requires
            old(self).wf(),
        ensures
            final(self).wf(),
            only_noticed(*old(self), *final(self), seq![a@, b@]),
    {
        self.notify(a);
        self.push_system_to_current(String::from_str(b));
        proof {
            assert(seq![a@, b@].drop_last() =~= seq![a@]);
        }
    }

    /// Appends system lines `a`, `b`, `c` to the current log.
    pub fn notify3(&mut self, a: &str, b: &str, c: &str)
        requires
            old(self).wf(),
        ensures
            final(self).wf(),
            only_noticed(*old(self), *final(self), seq![a@, b@, c@]),
    {
        self.notify2(a, b);
        self.push_system_to_current(String::from_str(c));
        proof {
            assert(seq![a@, b@, c@].drop_last() =~= seq![a@, b@]);
        }
    }

    /// Position of the first connected server.
    pub fn first_connected_server(&self) -> (r: Option<usize>)
        ensures
            match r {
                Some(i) => first_connected(self.servers@) == Some(i as int),
                None => first_connected(self.servers@) is None,
            },
            r matches Some(i) ==> i < self.servers@.len(),
    {
        let mut i: usize = 0;
        while i < self.servers.len()
            invariant
                i <= self.servers@.len(),
                first_connected_from(self.servers@, 0) == first_connected_from(
                    self.servers@,
                    i as int,
                ),
            decreases self.servers@.len() - i,
        {
            if self.servers[i].is_connected {
                return Some(i);
            }
            i = i + 1;
        }
        None
    }

    /// Adds a joined direct-message channel `name` to server `p` unless it
    /// has a channel so called.
    pub fn ensure_dm_channel(&mut self, p: usize, name: &str, count: Option<usize>)
        requires
            p < old(self).servers@.len(),
        ensures
            dm_ensured(old(self).servers@, final(self).servers@, p as int, name@, count),
            *final(self) == (App { servers: final(self).servers, ..*old(self) }),
    {
        let n = self.servers[p].channels.len();
        let mut j: usize = 0;
        while j < n
            invariant
                p < self.servers@.len(),
                *self == *old(self),
                n == self.servers@[p as int].channels@.len(),
                j <= n,
                forall|k: int| 0 <= k < j ==> (#[trigger] self.servers@[p as int].channels@[k]).name@ != name@,
            decreases n - j,
        {
            if crate::store::same_text(self.servers[p].channels[j].name.as_str(), name) {
                proof {
                    assert(has_channel(old(self).servers@[p as int], name@));
                }
                return;
            }
            j = j + 1;
        }
        let c = ChannelInfo {
            name: name.to_owned(),
            topic: None,
            client_count: count,
            is_joined: true,
            is_dm: true,
        };
        self.servers[p].channels.push(c);
        proof {
            assert(self.servers@[p as int].channels@.drop_last() =~= old(self).servers@[p as int].channels@);
        }
    }

    /// Makes `(server, name)` the current destination, creating its log.
    pub fn open_destination(&mut self, server: &str, name: &str)
        requires
            old(self).wf(),
        ensures
            final(self).wf(),
            opened(*old(self), *final(self), server@, name@),
            *final(self) == (App {
                current_channel: final(self).current_channel,
                channel: final(self).channel,
                channel_messages: final(self).channel_messages,
                ..*old(self)
            }),
    {
        self.current_channel = Some(
            ChannelContext { server_name: server.to_owned(), channel_name: name.to_owned() },
        );
        self.channel_messages.ensure(server, name);
        self.channel = name.to_owned();
    }
}

/// The store after a system line for each of `lines` on the log of `key`,
/// none of them moving the selection; unchanged without a key.
pub open spec fn quietly_noticed(
    m: Map<DestKey, LogView>,
    key: Option<DestKey>,
    lines: Seq<Seq<char>>,
) -> Map<DestKey, LogView>
    decreases lines.len(),
{
    if lines.len() == 0 {
        m
    } else {
        match key {
            Some(k) => store_apply(
                quietly_noticed(m, key, lines.drop_last()),
                k,
                LogEdit::AppendQuiet(system_line(lines.last())),
            ),
            None => m,
        }
    }
}

/// The greeting shown at start: a welcome line and a picture of a duck.
pub open spec fn welcome_lines() -> Seq<Seq<char>> {
    seq![
        "Welcome to DuckIRC!"@,
        "⠀⠀⠀⠀⠀⠀⠀⠀⠀⠀⠀⠀⠀⠀⠀⠀⠀⠀⠀⠀⠀⠀⠀⠀⠀⠀⠀⠀⠀⠀"@,
        "    ⠀⠀⠀⠀⠀⠀⠀⠀⠀⠀⣠⣤⣤⣤⣄⠀⠀⠀⠀⠀⠀⠀⠀⠀⠀⠀⠀⠀⠀⠀"@,
        "    ⠀⠀⠀⠀⠀⠀⠀⠀⣠⡿⠋⢁⡀⠉⠙⣿⡄⠀⠀⠀⠀⠀⠀⠀⠀⠀⠀⠀⠀⠀"@,
        "    ⠀⠀⠀⠀⢴⣿⣿⣿⣿⡇⠀⠘⠋⠀⠀⢸⡇⠀⠀⠀⠀⠀⠀⠀⠀⠀⠀⠀⠀⠀"@,
        "    ⠀⠀⠀⠀⠀⠉⠉⠉⠙⠻⣷⡄⠀⠀⢠⣿⠃⠀⠀⠀⠀⠀⠀⠀⠀⠀⠀⠀⠀⠀"@,
        "    ⠀⠀⠀⠀⠀⠀⠀⠀⠀⣠⣿⣷⣶⣶⣿⠃⢀⡀⠀⠀⠀⢰⡿⢷⣄⠀⠀⠀⠀⠀"@,
        "    ⠀⠀⠀⠀⠀⠀⠀⢀⣾⠟⠀⠀⠀⣴⣿⣿⣿⣿⣿⣿⣿⣾⡿⠀⢻⣇⠀⠀⠀⠀"@,
        "    ⠀⠀⠀⠀⠀⠀⠀⣸⡏⠀⠀⠀⢸⣿⣿⣿⣿⣿⣿⣿⣿⡉⠀⠀⢸⣿⠀⠀⠀⠀"@,
        "    ⠀⠀⠀⠀⠀⠀⠀⢹⣇⠀⠀⠀⠀⠻⣿⣿⣿⣿⣿⣿⡿⠁⠀⢀⣾⠇⠀⠀⠀⠀"@,
        "    ⠀⠀⠀⠀⠀⠀⠀⠈⢿⣦⡀⠀⠀⠀⠀⠉⠉⠉⠉⠁⠀⢀⣤⡾⠋⠀⠀⠀⠀⠀"@,
        "    ⠀⠀⠀⠀⠀⠀⠀⠀⠀⠉⠻⠷⣶⣦⣤⣤⣤⣤⣶⡶⠾⠛⠋⠀⠀⠀⠀⠀⠀⠀"@,
        "    ⠀⠀⠀⠀⠀⠀⠀⠀⠀⠀⠀⢀⣠⣿⡇⠀⣿⡇⠀⠀⠀⠀⠀⠀⠀⠀⠀⠀⠀⠀"@,
        "    ⠀⠀⠀⠀⠀⠀⠀⠀⠀⠀⠘⠿⡿⠟⣡⣾⣿⡇⠀⠀⠀⠀⠀⠀⠀⠀⠀⠀⠀⠀"@,
        "    ⠀⠀⠀⠀⠀⠀⠀⠀⠀⠀⠀⠀⠀⠀⠙⠛⠛⠁⠀⠀⠀⠀⠀⠀⠀⠀⠀⠀⠀⠀"@,
        "    ⠀⠀⠀⠀⠀⠀⠀⠀⠀⠀⠀⠀⠀⠀⠀⠀⠀⠀⠀⠀⠀⠀⠀⠀⠀⠀⠀⠀⠀⠀"@,
    ]
}

impl App {
    /// Puts the greeting into the current log without moving its selection.
    pub fn push_initial_messages(&mut self)
        requires
            old(self).wf(),
        ensures
            final(self).wf(),
            final(self).channel_messages.view() == quietly_noticed(
                old(self).channel_messages.view(),
                old(self).current_key(),
                welcome_lines(),
            ),
            *final(self) == (App { channel_messages: final(self).channel_messages, ..*old(self) }),
    {
        let lines: Vec<&str> = vec![
            "Welcome to DuckIRC!",
            "⠀⠀⠀⠀⠀⠀⠀⠀⠀⠀⠀⠀⠀⠀⠀⠀⠀⠀⠀⠀⠀⠀⠀⠀⠀⠀⠀⠀⠀⠀",
            "    ⠀⠀⠀⠀⠀⠀⠀⠀⠀⠀⣠⣤⣤⣤⣄⠀⠀⠀⠀⠀⠀⠀⠀⠀⠀⠀⠀⠀⠀⠀",
            "    ⠀⠀⠀⠀⠀⠀⠀⠀⣠⡿⠋⢁⡀⠉⠙⣿⡄⠀⠀⠀⠀⠀⠀⠀⠀⠀⠀⠀⠀⠀",
            "    ⠀⠀⠀⠀⢴⣿⣿⣿⣿⡇⠀⠘⠋⠀⠀⢸⡇⠀⠀⠀⠀⠀⠀⠀⠀⠀⠀⠀⠀⠀",
            "    ⠀⠀⠀⠀⠀⠉⠉⠉⠙⠻⣷⡄⠀⠀⢠⣿⠃⠀⠀⠀⠀⠀⠀⠀⠀⠀⠀⠀⠀⠀",
            "    ⠀⠀⠀⠀⠀⠀⠀⠀⠀⣠⣿⣷⣶⣶⣿⠃⢀⡀⠀⠀⠀⢰⡿⢷⣄⠀⠀⠀⠀⠀",
            "    ⠀⠀⠀⠀⠀⠀⠀⢀⣾⠟⠀⠀⠀⣴⣿⣿⣿⣿⣿⣿⣿⣾⡿⠀⢻⣇⠀⠀⠀⠀",
            "    ⠀⠀⠀⠀⠀⠀⠀⣸⡏⠀⠀⠀⢸⣿⣿⣿⣿⣿⣿⣿⣿⡉⠀⠀⢸⣿⠀⠀⠀⠀",
            "    ⠀⠀⠀⠀⠀⠀⠀⢹⣇⠀⠀⠀⠀⠻⣿⣿⣿⣿⣿⣿⡿⠁⠀⢀⣾⠇⠀⠀⠀⠀",
            "    ⠀⠀⠀⠀⠀⠀⠀⠈⢿⣦⡀⠀⠀⠀⠀⠉⠉⠉⠉⠁⠀⢀⣤⡾⠋⠀⠀⠀⠀⠀",
            "    ⠀⠀⠀⠀⠀⠀⠀⠀⠀⠉⠻⠷⣶⣦⣤⣤⣤⣤⣶⡶⠾⠛⠋⠀⠀⠀⠀⠀⠀⠀",
            "    ⠀⠀⠀⠀⠀⠀⠀⠀⠀⠀⠀⢀⣠⣿⡇⠀⣿⡇⠀⠀⠀⠀⠀⠀⠀⠀⠀⠀⠀⠀",
            "    ⠀⠀⠀⠀⠀⠀⠀⠀⠀⠀⠘⠿⡿⠟⣡⣾⣿⡇⠀⠀⠀⠀⠀⠀⠀⠀⠀⠀⠀⠀",
            "    ⠀⠀⠀⠀⠀⠀⠀⠀⠀⠀⠀⠀⠀⠀⠙⠛⠛⠁⠀⠀⠀⠀⠀⠀⠀⠀⠀⠀⠀⠀",
            "    ⠀⠀⠀⠀⠀⠀⠀⠀⠀⠀⠀⠀⠀⠀⠀⠀⠀⠀⠀⠀⠀⠀⠀⠀⠀⠀⠀⠀⠀⠀",
        ];
        let ghost o = *self;
        let mut i: usize = 0;
        while i < lines.len()
            invariant
                self.wf(),
                i <= lines@.len(),
                lines@.len() == welcome_lines().len(),
                forall|j: int| 0 <= j < lines@.len() ==> (#[trigger] lines@[j])@ == welcome_lines()[j],
                self.channel_messages.view() == quietly_noticed(
                    o.channel_messages.view(),
                    o.current_key(),
                    welcome_lines().subrange(0, i as int),
                ),
                *self == (App { channel_messages: self.channel_messages, ..o }),
            decreases lines@.len() - i,
        {
            self.push_without_updating_scroll(String::from_str(lines[i]));
            proof {
                let pre = welcome_lines().subrange(0, i as int + 1);
                assert(pre.drop_last() =~= welcome_lines().subrange(0, i as int));
                assert(pre.last() == lines@[i as int]@);
            }
            i = i + 1;
        }
        proof {
            assert(welcome_lines().subrange(0, i as int) =~= welcome_lines());
        }
    }
}

} // verus!
