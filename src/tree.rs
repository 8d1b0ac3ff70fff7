use vstd::prelude::*;

verus! {

/// A channel (or direct-message pseudo-channel) known on a server.
pub struct ChannelInfo {
    pub name: String,
    pub topic: Option<String>,
    pub client_count: Option<usize>,
    pub is_joined: bool,
    pub is_dm: bool,
}

/// A known server with its channels in discovery order.
pub struct ServerInfo {
    pub name: String,
    pub is_connected: bool,
    pub channels: Vec<ChannelInfo>,
    pub is_expanded: bool,
}

/// A participant of the current destination.
pub struct ClientInfo {
    pub name: String,
}

/// One row of the flattened server/channel tree.
#[derive(Clone, Copy, PartialEq, Eq, Structural, Debug)]
pub enum ServerTreeItem {
    Server { server_idx: usize },
    Channel { server_idx: usize, channel_idx: usize },
}

/// The rows that server `idx` contributes: itself, then its channels when
/// it is expanded.
pub open spec fn server_rows(s: ServerInfo, idx: int) -> Seq<ServerTreeItem> {
    seq![ServerTreeItem::Server { server_idx: idx as usize }] + if s.is_expanded {
        Seq::new(
            s.channels@.len(),
            |c: int| ServerTreeItem::Channel { server_idx: idx as usize, channel_idx: c as usize },
        )
    } else {
        Seq::<ServerTreeItem>::empty()
    }
}

/// The flattened tree of a server list, servers in order.
pub open spec fn tree_of(servers: Seq<ServerInfo>) -> Seq<ServerTreeItem>
    decreases servers.len(),
{
    if servers.len() == 0 {
        Seq::empty()
    } else {
        tree_of(servers.drop_last()) + server_rows(servers.last(), servers.len() - 1)
    }
}

/// A selection index held inside `[0, len - 1]` (0 when `len` is 0).
pub open spec fn clamp_index(idx: int, len: int) -> int {
    if idx >= len {
        if len > 0 {
            len - 1
        } else {
            0
        }
    } else {
        idx
    }
}

/// Builds the flattened tree: every server in order, each followed by its
/// channels in order when it is expanded.
pub fn build_tree(servers: &Vec<ServerInfo>) -> (r: Vec<ServerTreeItem>)
    ensures
        r@ == tree_of(servers@),
{
    let mut out: Vec<ServerTreeItem> = Vec::new();
    let mut s: usize = 0;
    while s < servers.len()
        invariant
            s <= servers@.len(),
            out@ == tree_of(servers@.subrange(0, s as int)),
        decreases servers@.len() - s,
    {
        proof {
            assert(servers@.subrange(0, s as int + 1).drop_last() =~= servers@.subrange(0, s as int));
        }
        let ghost before = out@;
        out.push(ServerTreeItem::Server { server_idx: s });
        if servers[s].is_expanded {
            let n = servers[s].channels.len();
            let mut c: usize = 0;
            while c < n
                invariant
                    s < servers@.len(),
                    n == servers@[s as int].channels@.len(),
                    c <= n,
                    out@ == before + seq![ServerTreeItem::Server { server_idx: s }] + Seq::new(
                        c as nat,
                        |j: int| ServerTreeItem::Channel { server_idx: s, channel_idx: j as usize },
                    ),
                decreases n - c,
            {
                out.push(ServerTreeItem::Channel { server_idx: s, channel_idx: c });
                c = c + 1;
                proof {
                    assert(out@ =~= before + seq![ServerTreeItem::Server { server_idx: s }]
                        + Seq::new(
                        c as nat,
                        |j: int| ServerTreeItem::Channel { server_idx: s, channel_idx: j as usize },
                    ));
                }
            }
            proof {
                assert(out@ =~= before + server_rows(servers@[s as int], s as int));
            }
        } else {
            proof {
                assert(out@ =~= before + server_rows(servers@[s as int], s as int));
            }
        }
        s = s + 1;
    }
    proof {
        assert(servers@.subrange(0, s as int) =~= servers@);
    }
    out
}

/// Holds a selection index inside a tree of `len` rows.
pub fn clamp_selection(idx: usize, len: usize) -> (r: usize)
    ensures
        r == clamp_index(idx as int, len as int),
{
    if idx >= len {
        len.saturating_sub(1)
    } else {
        idx
    }
}

/// The expansion flags after toggling server `target`: every other server
/// collapsed, the target's flag flipped.
pub open spec fn toggled(servers: Seq<ServerInfo>, target: int) -> Seq<ServerInfo> {
    Seq::new(
        servers.len(),
        |i: int|
            ServerInfo {
                is_expanded: if i == target {
                    !servers[i].is_expanded
                } else {
                    false
                },
                ..servers[i]
            },
    )
}

/// Collapses every server but `target` and flips `target`'s expansion (at
/// most one server is expanded afterwards); an index out of range only
/// collapses.
pub fn toggle_expansion(servers: &mut Vec<ServerInfo>, target: usize)
    ensures
        final(servers)@ == toggled(old(servers)@, target as int),
{
    let ghost orig = servers@;
    let mut i: usize = 0;
    let n = servers.len();
    while i < n
        invariant
            n == servers@.len() == orig.len(),
            i <= n,
            forall|j: int|
                0 <= j < n ==> (#[trigger] servers@[j]) == if j < i {
                    ServerInfo {
                        is_expanded: if j == target {
                            !orig[j].is_expanded
                        } else {
                            false
                        },
                        ..orig[j]
                    }
                } else {
                    orig[j]
                },
        decreases n - i,
    {
        let flag = if i == target {
            !servers[i].is_expanded
        } else {
            false
        };
        servers[i].is_expanded = flag;
        i = i + 1;
    }
    proof {
        assert(servers@ =~= toggled(orig, target as int));
    }
}

} // verus!
