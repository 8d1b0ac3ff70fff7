use vstd::prelude::*;
use vstd::string::StringSliceAdditionalSpecFns;

verus! {

/// Number of colours that nicks are spread over.
pub const NICK_COLORS: u64 = 12;

/// One line of a message log: a system line (no nick) or a user line with
/// the sender's nick and the index of the colour chosen for it.
pub struct ColoredMessage {
    pub nick: Option<String>,
    pub text: String,
    pub color: Option<u8>,
}

/// The rolling hash of a nick's bytes: `h = h * 31 + b`, wrapping at 2^64.
pub open spec fn nick_hash(b: Seq<u8>) -> u64
    decreases b.len(),
{
    if b.len() == 0 {
        0
    } else {
        vstd::wrapping::u64_specs::wrapping_add(
            vstd::wrapping::u64_specs::wrapping_mul(nick_hash(b.drop_last()), 31),
            b.last() as u64,
        )
    }
}

/// The colour of a nick: its hash modulo the number of colours.
pub open spec fn nick_color(nick: Seq<char>) -> u8 {
    (nick_hash(vstd::utf8::encode_utf8(nick)) % NICK_COLORS) as u8
}

/// Picks a colour index in `[0, 12)` for a nick, the same every time.
pub fn color_for_user(nick: &str) -> (r: u8)
    ensures
        r == nick_color(nick@),
        r < NICK_COLORS,
{
    let bytes = nick.as_bytes();
    let mut hash: u64 = 0;
    let mut i: usize = 0;
    while i < bytes.len()
        invariant
            i <= bytes@.len(),
            bytes@ == nick.spec_bytes(),
            hash == nick_hash(bytes@.subrange(0, i as int)),
        decreases bytes@.len() - i,
    {
        proof {
            let pre = bytes@.subrange(0, i as int + 1);
            assert(pre.drop_last() =~= bytes@.subrange(0, i as int));
        }
        hash = hash.wrapping_mul(31).wrapping_add(bytes[i] as u64);
        i = i + 1;
    }
    proof {
        assert(bytes@.subrange(0, i as int) =~= bytes@);
    }
    (hash % NICK_COLORS) as u8
}

/// A message record as values.
pub struct MessageView {
    pub nick: Option<Seq<char>>,
    pub text: Seq<char>,
    pub color: Option<u8>,
}

/// A system line with this text.
pub open spec fn system_line(text: Seq<char>) -> MessageView {
    MessageView { nick: None, text, color: None }
}

/// A line by `nick`, coloured by the nick.
pub open spec fn user_line(nick: Seq<char>, text: Seq<char>) -> MessageView {
    MessageView { nick: Some(nick), text, color: Some(nick_color(nick)) }
}

impl View for ColoredMessage {
    type V = MessageView;

    open spec fn view(&self) -> MessageView {
        MessageView {
            nick: match self.nick {
                Some(n) => Some(n@),
                None => None,
            },
            text: self.text@,
            color: self.color,
        }
    }
}

impl ColoredMessage {
    /// A system line.
    pub fn system(text: String) -> (r: ColoredMessage)
        ensures
            r@ == system_line(text@),
    {
        ColoredMessage { nick: None, text, color: None }
    }

    /// A line sent by `nick`, coloured by the nick.
    pub fn from_user(nick: &str, text: &str) -> (r: ColoredMessage)
        ensures
            r@ == user_line(nick@, text@),
    {
        ColoredMessage {
            nick: Some(nick.to_owned()),
            text: text.to_owned(),
            color: Some(color_for_user(nick)),
        }
    }
}

/// The log of one destination with its selection and scroll window.
pub struct ChannelMessages {
    pub messages: Vec<ColoredMessage>,
    pub msg_index: usize,
    pub msg_scroll: usize,
    pub viewport_height: usize,
}

/// `a - b`, or 0 when `b > a`.
pub open spec fn sat_sub(a: int, b: int) -> int {
    if a > b {
        a - b
    } else {
        0
    }
}

/// The scroll offset that keeps `index` inside a window of `height` rows
/// starting at `scroll`, moving the window as little as possible.
pub open spec fn follow_scroll(index: int, scroll: int, height: int) -> int {
    if index < scroll {
        index
    } else if index >= scroll + height {
        if height > 0 {
            index - height + 1
        } else {
            index
        }
    } else {
        scroll
    }
}

/// What a log holds, as values: its records, selection, window start and
/// viewport height.
pub struct LogView {
    pub messages: Seq<MessageView>,
    pub msg_index: nat,
    pub msg_scroll: nat,
    pub viewport_height: nat,
}

/// A log that has just been created.
pub open spec fn empty_log() -> LogView {
    LogView { messages: Seq::empty(), msg_index: 0, msg_scroll: 0, viewport_height: 0 }
}

/// Whether the selection sits on the last record (or the log is empty).
pub open spec fn log_at_bottom(l: LogView) -> bool {
    l.messages.len() == 0 || l.msg_index == l.messages.len() - 1
}

/// `append`: push the record; when the selection was at the bottom it moves
/// to the new last record and, with a known viewport, the window shows the
/// last rows. Otherwise selection and window stay.
pub open spec fn log_append(l: LogView, m: MessageView) -> LogView {
    let n = l.messages.len() + 1;
    if log_at_bottom(l) {
        LogView {
            messages: l.messages.push(m),
            msg_index: (n - 1) as nat,
            msg_scroll: if l.viewport_height > 0 {
                sat_sub(n as int, l.viewport_height as int) as nat
            } else {
                l.msg_scroll
            },
            ..l
        }
    } else {
        LogView { messages: l.messages.push(m), ..l }
    }
}

/// A push that leaves selection and window alone.
pub open spec fn log_append_quiet(l: LogView, m: MessageView) -> LogView {
    LogView { messages: l.messages.push(m), ..l }
}

/// Selection to `index` (when in range) with the least window movement.
pub open spec fn log_jump_to(l: LogView, index: int) -> LogView {
    if 0 <= index < l.messages.len() {
        LogView {
            msg_index: index as nat,
            msg_scroll: follow_scroll(index, l.msg_scroll as int, l.viewport_height as int) as nat,
            ..l
        }
    } else {
        l
    }
}

/// Selection one up, saturating at the first record.
pub open spec fn log_move_up(l: LogView) -> LogView {
    let i: int = if l.msg_index > 0 {
        l.msg_index - 1
    } else {
        l.msg_index as int
    };
    LogView {
        msg_index: i as nat,
        msg_scroll: follow_scroll(i, l.msg_scroll as int, l.viewport_height as int) as nat,
        ..l
    }
}

/// Selection one down, saturating at the last record.
pub open spec fn log_move_down(l: LogView) -> LogView {
    let i: int = if l.msg_index + 1 < l.messages.len() {
        l.msg_index + 1int
    } else {
        l.msg_index as int
    };
    LogView {
        msg_index: i as nat,
        msg_scroll: follow_scroll(i, l.msg_scroll as int, l.viewport_height as int) as nat,
        ..l
    }
}

/// Selection and window to the top.
pub open spec fn log_jump_top(l: LogView) -> LogView {
    LogView { msg_index: 0, msg_scroll: 0, ..l }
}

/// Selection to the last record, window on the last rows (on the last
/// record while no viewport is known); an empty log stays as it is.
pub open spec fn log_jump_bottom(l: LogView) -> LogView {
    let n = l.messages.len();
    if n == 0 {
        l
    } else {
        LogView {
            msg_index: (n - 1) as nat,
            msg_scroll: if l.viewport_height > 0 {
                sat_sub(n as int, l.viewport_height as int) as nat
            } else {
                (n - 1) as nat
            },
            ..l
        }
    }
}

/// Empty the records; selection and window back to 0.
pub open spec fn log_clear(l: LogView) -> LogView {
    LogView { messages: Seq::empty(), msg_index: 0, msg_scroll: 0, ..l }
}

impl View for ChannelMessages {
    type V = LogView;

    open spec fn view(&self) -> LogView {
        LogView {
            messages: self.messages@.map_values(|m: ColoredMessage| m@),
            msg_index: self.msg_index as nat,
            msg_scroll: self.msg_scroll as nat,
            viewport_height: self.viewport_height as nat,
        }
    }
}

impl ChannelMessages {
    /// Selection inside the log and the window start at or before it.
    pub open spec fn wf(&self) -> bool {
        if self.messages.len() == 0 {
            self.msg_index == 0 && self.msg_scroll == 0
        } else {
            self.msg_scroll <= self.msg_index < self.messages.len()
        }
    }

    /// An empty log.
    pub fn new() -> (r: ChannelMessages)
        ensures
            r.messages@.len() == 0,
            r.msg_index == 0,
            r.msg_scroll == 0,
            r.viewport_height == 0,
            r.wf(),
            r@ == empty_log(),
    {
        let r = ChannelMessages {
            messages: Vec::new(),
            msg_index: 0,
            msg_scroll: 0,
            viewport_height: 0,
        };
        assert(r@.messages =~= Seq::<MessageView>::empty());
        r
    }

    /// Appends a record. When the selection was at the bottom it follows the
    /// new record, and with a known viewport the window shows the last rows;
    /// otherwise selection and window stay where the reader left them.
    pub fn append(&mut self, m: ColoredMessage)
        requires
            old(self).wf(),
        ensures
            final(self).wf(),
            final(self)@ == log_append(old(self)@, m@),
    {
        let before = self.messages.len();
        let was_at_bottom = if before > 0 {
            self.msg_index == before - 1
        } else {
            true
        };
        let ghost mv = m@;
        self.messages.push(m);
        proof {
            assert(self.messages@.map_values(|m: ColoredMessage| m@) =~= old(self).messages@.map_values(
                |m: ColoredMessage| m@,
            ).push(mv));
        }
        if was_at_bottom {
            let len = self.messages.len();
            self.msg_index = len - 1;
            if self.viewport_height > 0 {
                self.msg_scroll = len.saturating_sub(self.viewport_height);
            }
        }
    }

    /// Appends a record and leaves selection and window alone.
    pub fn append_quiet(&mut self, m: ColoredMessage)
        requires
            old(self).wf(),
        ensures
            final(self).wf(),
            final(self)@ == log_append_quiet(old(self)@, m@),
    {
        let ghost mv = m@;
        self.messages.push(m);
        proof {
            assert(self.messages@.map_values(|m: ColoredMessage| m@) =~= old(self).messages@.map_values(
                |m: ColoredMessage| m@,
            ).push(mv));
        }
    }

    /// Moves the selection to `index` and the window as little as needed to
    /// show it; does nothing when `index` is out of range.
    pub fn jump_to(&mut self, index: usize)
        requires
            old(self).wf(),
        ensures
            final(self).wf(),
            final(self)@ == log_jump_to(old(self)@, index as int),
            index < old(self).messages.len() ==> final(self).msg_scroll <= final(self).msg_index,
            index < old(self).messages.len() && final(self).viewport_height > 0
                ==> final(self).msg_index < final(self).msg_scroll + final(self).viewport_height,
    {
        if index < self.messages.len() {
            self.msg_index = index;
            proof {
                if self.viewport_height > 0 {
                    lemma_follow_scroll_window(
                        index as int,
                        self.msg_scroll as int,
                        self.viewport_height as int,
                    );
                }
            }
            self.msg_scroll = follow(index, self.msg_scroll, self.viewport_height);
        }
    }

    /// Moves the selection one record up, saturating at the first.
    pub fn move_up(&mut self)
        requires
            old(self).wf(),
        ensures
            final(self).wf(),
            final(self)@ == log_move_up(old(self)@),
            final(self).msg_scroll <= final(self).msg_index,
            final(self).viewport_height > 0 ==> final(self).msg_index < final(self).msg_scroll
                + final(self).viewport_height,
    {
        if self.msg_index > 0 {
            self.msg_index = self.msg_index - 1;
        }
        proof {
            if self.viewport_height > 0 {
                lemma_follow_scroll_window(
                    self.msg_index as int,
                    self.msg_scroll as int,
                    self.viewport_height as int,
                );
            }
        }
        self.msg_scroll = follow(self.msg_index, self.msg_scroll, self.viewport_height);
    }

    /// Moves the selection one record down, saturating at the last.
    pub fn move_down(&mut self)
        requires
            old(self).wf(),
        ensures
            final(self).wf(),
            final(self)@ == log_move_down(old(self)@),
            final(self).msg_scroll <= final(self).msg_index,
            final(self).viewport_height > 0 ==> final(self).msg_index < final(self).msg_scroll
                + final(self).viewport_height,
    {
        if self.msg_index + 1 < self.messages.len() {
            self.msg_index = self.msg_index + 1;
        }
        proof {
            if self.viewport_height > 0 {
                lemma_follow_scroll_window(
                    self.msg_index as int,
                    self.msg_scroll as int,
                    self.viewport_height as int,
                );
            }
        }
        self.msg_scroll = follow(self.msg_index, self.msg_scroll, self.viewport_height);
    }

    /// Selects the first record and scrolls to the top.
    pub fn jump_top(&mut self)
        requires
            old(self).wf(),
        ensures
            final(self).wf(),
            final(self)@ == log_jump_top(old(self)@),
    {
        self.msg_index = 0;
        self.msg_scroll = 0;
    }

    /// Selects the last record, with the window on the last rows (on the
    /// last record while no viewport is known); nothing changes on an empty
    /// log.
    pub fn jump_bottom(&mut self)
        requires
            old(self).wf(),
        ensures
            final(self).wf(),
            final(self)@ == log_jump_bottom(old(self)@),
    {
        let len = self.messages.len();
        if len == 0 {
            return;
        }
        self.msg_index = len - 1;
        let s = len.saturating_sub(self.viewport_height);
        self.msg_scroll = if s <= len - 1 { s } else { len - 1 };
    }

    /// Empties the log; selection and window go back to 0.
    pub fn clear(&mut self)
        ensures
            final(self).wf(),
            final(self)@ == log_clear(old(self)@),
    {
        self.messages.clear();
        self.msg_index = 0;
        self.msg_scroll = 0;
        proof {
            assert(self.messages@.map_values(|m: ColoredMessage| m@) =~= Seq::<MessageView>::empty());
        }
    }

    /// Records the number of rows that rendering has for this log.
    pub fn set_viewport_height(&mut self, h: usize)
        requires
            old(self).wf(),
        ensures
            final(self).wf(),
            final(self)@ == (LogView { viewport_height: h as nat, ..old(self)@ }),
    {
        self.viewport_height = h;
    }
}

fn follow(index: usize, scroll: usize, height: usize) -> (r: usize)
    ensures
        r == follow_scroll(index as int, scroll as int, height as int),
{
    if index < scroll {
        index
    } else if index - scroll >= height {
        if height > 0 {
            index - height + 1
        } else {
            index
        }
    } else {
        scroll
    }
}

/// Appending follows the bottom: a selection on the last record moves to
/// the new last record and, with a viewport of `H > 0` rows and more than
/// `H` records, the window starts `H` records before the end; a selection
/// elsewhere, and the window with it, stays.
pub proof fn lemma_append_follows_bottom(l: LogView, m: MessageView)
    ensures
        log_at_bottom(l) ==> log_append(l, m).msg_index == l.messages.len(),
        log_at_bottom(l) && l.viewport_height > 0 && l.messages.len() + 1 > l.viewport_height
            ==> log_append(l, m).msg_scroll == l.messages.len() + 1 - l.viewport_height,
        !log_at_bottom(l) ==> log_append(l, m).msg_index == l.msg_index && log_append(l, m).msg_scroll
            == l.msg_scroll,
        log_append(l, m).messages == l.messages.push(m),
{
}

/// Moving the selection keeps it inside the window: the window starts at or
/// before it and, with a known viewport, ends after it.
pub proof fn lemma_follow_scroll_window(index: int, scroll: int, height: int)
    requires
        0 <= index,
        0 <= scroll,
        height > 0,
    ensures
        follow_scroll(index, scroll, height) <= index,
        index < follow_scroll(index, scroll, height) + height,
{
}

} // verus!
