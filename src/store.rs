use vstd::prelude::*;
use crate::messages::{
    empty_log, log_append, log_append_quiet, log_clear, log_jump_bottom, log_jump_to, log_jump_top,
    log_move_down, log_move_up, ChannelMessages, ColoredMessage, LogView, MessageView,
};

verus! {

/// A destination: a server and a channel (or a nick for direct messages).
pub struct ChannelContext {
    pub server_name: String,
    pub channel_name: String,
}

/// The key of a destination.
pub type DestKey = (Seq<char>, Seq<char>);

pub open spec fn context_key(c: ChannelContext) -> DestKey {
    (c.server_name@, c.channel_name@)
}

/// The log of one destination in the store.
pub struct LogEntry {
    pub server_name: String,
    pub channel_name: String,
    pub log: ChannelMessages,
}

pub open spec fn entry_key(e: LogEntry) -> DestKey {
    (e.server_name@, e.channel_name@)
}

/// Message logs keyed by destination, in the order destinations first
/// appeared; each destination appears once.
pub struct MessageStore {
    pub entries: Vec<LogEntry>,
}

/// Whether `a` and `b` hold the same characters.
pub fn same_text(a: &str, b: &str) -> (r: bool)
    ensures
        r == (a@ == b@),
{
    let x = a.to_owned();
    let y = b.to_owned();
    x == y
}

/// An operation on one destination's log.
pub enum LogOp {
    Append(ColoredMessage),
    AppendQuiet(ColoredMessage),
    JumpTo(usize),
    MoveUp,
    MoveDown,
    JumpTop,
    JumpBottom,
    Clear,
    SetHeight(usize),
}

/// A log operation as values.
pub enum LogEdit {
    Append(MessageView),
    AppendQuiet(MessageView),
    JumpTo(nat),
    MoveUp,
    MoveDown,
    JumpTop,
    JumpBottom,
    Clear,
    SetHeight(nat),
}

impl View for LogOp {
    type V = LogEdit;

    open spec fn view(&self) -> LogEdit {
        match self {
            LogOp::Append(m) => LogEdit::Append(m@),
            LogOp::AppendQuiet(m) => LogEdit::AppendQuiet(m@),
            LogOp::JumpTo(i) => LogEdit::JumpTo(*i as nat),
            LogOp::MoveUp => LogEdit::MoveUp,
            LogOp::MoveDown => LogEdit::MoveDown,
            LogOp::JumpTop => LogEdit::JumpTop,
            LogOp::JumpBottom => LogEdit::JumpBottom,
            LogOp::Clear => LogEdit::Clear,
            LogOp::SetHeight(h) => LogEdit::SetHeight(*h as nat),
        }
    }
}

/// What an operation does to a log.
pub open spec fn apply_op(l: LogView, op: LogEdit) -> LogView {
    match op {
        LogEdit::Append(m) => log_append(l, m),
        LogEdit::AppendQuiet(m) => log_append_quiet(l, m),
        LogEdit::JumpTo(i) => log_jump_to(l, i as int),
        LogEdit::MoveUp => log_move_up(l),
        LogEdit::MoveDown => log_move_down(l),
        LogEdit::JumpTop => log_jump_top(l),
        LogEdit::JumpBottom => log_jump_bottom(l),
        LogEdit::Clear => log_clear(l),
        LogEdit::SetHeight(h) => LogView { viewport_height: h, ..l },
    }
}

/// The log of `k`, or a fresh one when `k` has none yet.
pub open spec fn log_or_empty(m: Map<DestKey, LogView>, k: DestKey) -> LogView {
    if m.dom().contains(k) {
        m[k]
    } else {
        empty_log()
    }
}

/// The store after `op` on the log of `k`, which is created first when absent.
pub open spec fn store_apply(m: Map<DestKey, LogView>, k: DestKey, op: LogEdit) -> Map<
    DestKey,
    LogView,
> {
    m.insert(k, apply_op(log_or_empty(m, k), op))
}

impl MessageStore {
    pub open spec fn has_key_at(&self, k: DestKey, i: int) -> bool {
        0 <= i < self.entries@.len() && entry_key(self.entries@[i]) == k
    }

    /// Keys are unique and every log is well formed.
    pub open spec fn wf(&self) -> bool {
        &&& forall|i: int, j: int|
            0 <= i < j < self.entries@.len() ==> entry_key(#[trigger] self.entries@[i])
                != entry_key(#[trigger] self.entries@[j])
        &&& forall|i: int| 0 <= i < self.entries@.len() ==> (#[trigger] self.entries@[i]).log.wf()
    }

    /// The destinations that have a log, with their logs.
    pub open spec fn view(&self) -> Map<DestKey, LogView> {
        Map::new(
            |k: DestKey| exists|i: int| self.has_key_at(k, i),
            |k: DestKey| self.entries@[choose|i: int| self.has_key_at(k, i)].log@,
        )
    }

    pub proof fn lemma_view_at(&self, i: int)
        requires
            self.wf(),
            0 <= i < self.entries@.len(),
        ensures
            self.view().dom().contains(entry_key(self.entries@[i])),
            self.view()[entry_key(self.entries@[i])] == self.entries@[i].log@,
    {
        let k = entry_key(self.entries@[i]);
        assert(self.has_key_at(k, i));
        let j = choose|j: int| self.has_key_at(k, j);
        if j != i {
            if j < i {
                assert(entry_key(self.entries@[j]) != entry_key(self.entries@[i]));
            } else {
                assert(entry_key(self.entries@[i]) != entry_key(self.entries@[j]));
            }
        }
    }

    /// An empty store.
    pub fn new() -> (r: MessageStore)
        ensures
            r.wf(),
            r.view() == Map::<DestKey, LogView>::empty(),
    {
        let r = MessageStore { entries: Vec::new() };
        assert(r.view() =~= Map::<DestKey, LogView>::empty());
        r
    }

    /// The position of a destination's log.
    pub fn find(&self, server: &str, channel: &str) -> (r: Option<usize>)
        requires
            self.wf(),
        ensures
            r matches Some(i) ==> self.has_key_at((server@, channel@), i as int),
            r is None <==> !self.view().dom().contains((server@, channel@)),
    {
        let mut i: usize = 0;
        while i < self.entries.len()
            invariant
                i <= self.entries@.len(),
                forall|j: int| 0 <= j < i ==> !self.has_key_at((server@, channel@), j),
            decreases self.entries@.len() - i,
        {
            if same_text(self.entries[i].server_name.as_str(), server) && same_text(
                self.entries[i].channel_name.as_str(),
                channel,
            ) {
                assert(self.has_key_at((server@, channel@), i as int));
                return Some(i);
            }
            i = i + 1;
        }
        None
    }

    /// The log of a destination, if it has one.
    pub fn get(&self, server: &str, channel: &str) -> (r: Option<&ChannelMessages>)
        requires
            self.wf(),
        ensures
            r is Some <==> self.view().dom().contains((server@, channel@)),
            r matches Some(m) ==> m@ == self.view()[(server@, channel@)] && m.wf(),
    {
        match self.find(server, channel) {
            Some(i) => {
                proof {
                    self.lemma_view_at(i as int);
                }
                Some(&self.entries[i].log)
            },
            None => None,
        }
    }

    /// The position of a destination's log, creating an empty one first
    /// when the destination has none.
    pub fn ensure(&mut self, server: &str, channel: &str) -> (r: usize)
        requires
            old(self).wf(),
        ensures
            final(self).wf(),
            final(self).has_key_at((server@, channel@), r as int),
            old(self).view().dom().contains((server@, channel@)) ==> final(self).view()
                == old(self).view(),
            !old(self).view().dom().contains((server@, channel@)) ==> final(self).view()
                == old(self).view().insert((server@, channel@), empty_log()),
    {
        match self.find(server, channel) {
            Some(i) => i,
            None => {
                let ghost before = *self;
                let e = LogEntry {
                    server_name: server.to_owned(),
                    channel_name: channel.to_owned(),
                    log: ChannelMessages::new(),
                };
                self.entries.push(e);
                let n = self.entries.len() - 1;
                proof {
                    let k = (server@, channel@);
                    assert(self.has_key_at(k, n as int));
                    assert forall|i: int| 0 <= i < n implies entry_key(self.entries@[i]) != k by {
                        assert(!before.has_key_at(k, i));
                    }
                    self.lemma_view_at(n as int);
                    assert forall|q: DestKey| #[trigger] self.view().dom().contains(q) == before.view().insert(k, empty_log()).dom().contains(q) by {
                        if q != k && self.view().dom().contains(q) {
                            let j = choose|j: int| self.has_key_at(q, j);
                            assert(before.has_key_at(q, j));
                        }
                        if q != k && before.view().dom().contains(q) {
                            let j = choose|j: int| before.has_key_at(q, j);
                            assert(self.has_key_at(q, j));
                        }
                    }
                    assert forall|q: DestKey| #[trigger] self.view().dom().contains(q) implies self.view()[q] == before.view().insert(k, empty_log())[q] by {
                        if q != k {
                            let j = choose|j: int| self.has_key_at(q, j);
                            before.lemma_view_at(j);
                            self.lemma_view_at(j);
                        }
                    }
                    assert(self.view() =~= before.view().insert(k, empty_log()));
                }
                n
            },
        }
    }

    pub proof fn lemma_update_entry(before: MessageStore, after: MessageStore, i: int)
        requires
            before.wf(),
            0 <= i < before.entries@.len(),
            after.entries@ == before.entries@.update(i, after.entries@[i]),
            entry_key(after.entries@[i]) == entry_key(before.entries@[i]),
            after.entries@[i].log.wf(),
        ensures
            after.wf(),
            after.view() == before.view().insert(
                entry_key(before.entries@[i]),
                after.entries@[i].log@,
            ),
    {
        let k = entry_key(before.entries@[i]);
        assert forall|a: int, b: int|
            0 <= a < b < after.entries@.len() implies entry_key(#[trigger] after.entries@[a])
            != entry_key(#[trigger] after.entries@[b]) by {
            assert(entry_key(before.entries@[a]) != entry_key(before.entries@[b]));
        }
        assert(after.wf());
        after.lemma_view_at(i);
        assert forall|q: DestKey| #[trigger] after.view().dom().contains(q) == before.view().insert(k, after.entries@[i].log@).dom().contains(q) by {
            if after.view().dom().contains(q) {
                let j = choose|j: int| after.has_key_at(q, j);
                assert(before.has_key_at(q, j));
            }
            if q != k && before.view().dom().contains(q) {
                let j = choose|j: int| before.has_key_at(q, j);
                assert(after.has_key_at(q, j));
            }
        }
        assert forall|q: DestKey| #[trigger] after.view().dom().contains(q) implies after.view()[q] == before.view().insert(k, after.entries@[i].log@)[q] by {
            if q != k {
                let j = choose|j: int| after.has_key_at(q, j);
                assert(j != i);
                before.lemma_view_at(j);
                after.lemma_view_at(j);
            }
        }
        assert(after.view() =~= before.view().insert(k, after.entries@[i].log@));
    }

    pub proof fn lemma_update_any(before: MessageStore, i: int)
        requires
            before.wf(),
            0 <= i < before.entries@.len(),
        ensures
            forall|after: MessageStore|
                after.entries@ == before.entries@.update(i, after.entries@[i]) && entry_key(
                    after.entries@[i],
                ) == entry_key(before.entries@[i]) && after.entries@[i].log.wf() ==> #[trigger] after.wf()
                    && after.view() == before.view().insert(
                    entry_key(before.entries@[i]),
                    after.entries@[i].log@,
                ),
    {
        assert forall|after: MessageStore|
            after.entries@ == before.entries@.update(i, after.entries@[i]) && entry_key(
                after.entries@[i],
            ) == entry_key(before.entries@[i]) && after.entries@[i].log.wf() implies #[trigger] after.wf()
                && after.view() == before.view().insert(
                entry_key(before.entries@[i]),
                after.entries@[i].log@,
            ) by {
            MessageStore::lemma_update_entry(before, after, i);
        }
    }

    /// Applies `op` to the log of a destination, creating the log first
    /// when the destination has none.
    pub fn apply(&mut self, server: &str, channel: &str, op: LogOp)
        requires
            old(self).wf(),
        ensures
            final(self).wf(),
            final(self).view() == store_apply(old(self).view(), (server@, channel@), op@),
    {
        let i = self.ensure(server, channel);
        let ghost mid = *self;
        proof {
            mid.lemma_view_at(i as int);
        }
        match op {
            LogOp::Append(m) => self.entries[i].log.append(m),
            LogOp::AppendQuiet(m) => self.entries[i].log.append_quiet(m),
            LogOp::JumpTo(x) => self.entries[i].log.jump_to(x),
            LogOp::MoveUp => self.entries[i].log.move_up(),
            LogOp::MoveDown => self.entries[i].log.move_down(),
            LogOp::JumpTop => self.entries[i].log.jump_top(),
            LogOp::JumpBottom => self.entries[i].log.jump_bottom(),
            LogOp::Clear => self.entries[i].log.clear(),
            LogOp::SetHeight(h) => self.entries[i].log.set_viewport_height(h),
        }
        proof {
            MessageStore::lemma_update_entry(mid, *self, i as int);
        }
    }

    /// The log of a destination, for changing in place. While the log stays
    /// well formed, the store stays well formed with that log as the
    /// destination's.
    pub fn get_mut(&mut self, server: &str, channel: &str) -> (r: Option<&mut ChannelMessages>)
        requires
            old(self).wf(),
        ensures
            r is Some <==> old(self).view().dom().contains((server@, channel@)),
            r is None ==> *final(self) == *old(self),
            r is Some ==> (*r.unwrap())@ == old(self).view()[(server@, channel@)] && (*r.unwrap()).wf(),
            r is Some && final(r.unwrap()).wf() ==> final(self).wf() && final(self).view()
                == old(self).view().insert((server@, channel@), final(r.unwrap())@),
    {
        match self.find(server, channel) {
            Some(i) => {
                proof {
                    self.lemma_view_at(i as int);
                    MessageStore::lemma_update_any(*self, i as int);
                }
                let ghost before = *self;
                let m = &mut self.entries[i].log;
                // Only the log of entry `i` can change through `m`; its key stays.
                assert(after_borrow(*self).entries@ == before.entries@.update(
                    i as int,
                    after_borrow(*self).entries@[i as int],
                ));
                assert(entry_key(after_borrow(*self).entries@[i as int]) == entry_key(
                    before.entries@[i as int],
                ));
                Some(m)
            },
            None => None,
        }
    }
}

} // verus!
