use vstd::prelude::*;
use crate::chars::{chars_of, string_of};
use crate::words::{split_words, words};

verus! {

/// An event that the protocol side reports to the core.
pub enum UiEvent {
    Connected { nick: String, server_name: String },
    Disconnected { server_name: String },
    Message(String),
    Error(String),
    ChannelUpdate {
        server_name: String,
        channel_name: String,
        topic: Option<String>,
        client_count: usize,
        clients: Vec<String>,
        is_joined: bool,
        is_dm: bool,
    },
}

/// An intent that the core hands to the protocol side.
pub enum IrcCommand {
    Connect(String),
    Join(String),
    PrivMsg(String),
    Nick(String),
    ListServers,
    AddServer { name: String, address: String, port: u16, use_tls: bool },
    RemoveServer(String),
    Disconnect,
    SetCurrentChannel(String),
}

/// An intent as values.
pub enum Intent {
    Connect(Seq<char>),
    Join(Seq<char>),
    PrivMsg(Seq<char>),
    Nick(Seq<char>),
    ListServers,
    AddServer { name: Seq<char>, address: Seq<char>, port: u16, use_tls: bool },
    RemoveServer(Seq<char>),
    Disconnect,
    SetCurrentChannel(Seq<char>),
}

impl View for IrcCommand {
    type V = Intent;

    open spec fn view(&self) -> Intent {
        match self {
            IrcCommand::Connect(s) => Intent::Connect(s@),
            IrcCommand::Join(s) => Intent::Join(s@),
            IrcCommand::PrivMsg(s) => Intent::PrivMsg(s@),
            IrcCommand::Nick(s) => Intent::Nick(s@),
            IrcCommand::ListServers => Intent::ListServers,
            IrcCommand::AddServer { name, address, port, use_tls } => Intent::AddServer {
                name: name@,
                address: address@,
                port: *port,
                use_tls: *use_tls,
            },
            IrcCommand::RemoveServer(s) => Intent::RemoveServer(s@),
            IrcCommand::Disconnect => Intent::Disconnect,
            IrcCommand::SetCurrentChannel(s) => Intent::SetCurrentChannel(s@),
        }
    }
}

/// The intents of a list, as values.
pub open spec fn intents(v: Seq<IrcCommand>) -> Seq<Intent> {
    v.map_values(|c: IrcCommand| c@)
}

/// `s` without any leading `c`.
pub open spec fn strip_leading(s: Seq<char>, c: char) -> Seq<char>
    decreases s.len(),
{
    if s.len() > 0 && s[0] == c {
        strip_leading(s.drop_first(), c)
    } else {
        s
    }
}

/// A nick from a names list, without its `@` and `+` status marks.
pub open spec fn bare_nick(s: Seq<char>) -> Seq<char> {
    strip_leading(strip_leading(s, '@'), '+')
}

fn strip_chars(s: &Vec<char>, c: char) -> (r: Vec<char>)
    ensures
        r@ == strip_leading(s@, c),
{
    let mut i: usize = 0;
    assert(s@.subrange(0, s@.len() as int) =~= s@);
    while i < s.len() && s[i] == c
        invariant
            i <= s@.len(),
            strip_leading(s@, c) == strip_leading(s@.subrange(i as int, s@.len() as int), c),
        decreases s@.len() - i,
    {
        proof {
            assert(s@.subrange(i as int, s@.len() as int).drop_first() =~= s@.subrange(
                i as int + 1,
                s@.len() as int,
            ));
        }
        i = i + 1;
    }
    let mut out: Vec<char> = Vec::new();
    let mut j: usize = i;
    while j < s.len()
        invariant
            i <= j <= s@.len(),
            out@ == s@.subrange(i as int, j as int),
        decreases s@.len() - j,
    {
        out.push(s[j]);
        j = j + 1;
    }
    proof {
        let rest = s@.subrange(i as int, s@.len() as int);
        if rest.len() > 0 {
            assert(rest[0] != c);
        }
        assert(out@ =~= rest);
    }
    out
}

/// The nicks of a names reply: its whitespace-separated tokens with the
/// leading `@` and `+` marks taken off.
pub fn parse_names(names_str: &str) -> (r: Vec<String>)
    ensures
        r@.len() == words(names_str@).len(),
        forall|i: int| 0 <= i < r@.len() ==> (#[trigger] r@[i])@ == bare_nick(words(names_str@)[i]),
{
    let toks = split_words(&chars_of(names_str));
    let mut out: Vec<String> = Vec::new();
    let mut i: usize = 0;
    while i < toks.len()
        invariant
            i <= toks@.len(),
            toks@.len() == words(names_str@).len(),
            forall|j: int| 0 <= j < toks@.len() ==> (#[trigger] toks@[j])@ == words(names_str@)[j],
            out@.len() == i,
            forall|j: int| 0 <= j < i ==> (#[trigger] out@[j])@ == bare_nick(words(names_str@)[j]),
        decreases toks@.len() - i,
    {
        let a = strip_chars(&toks[i], '@');
        let b = strip_chars(&a, '+');
        out.push(string_of(&b));
        i = i + 1;
    }
    out
}

} // verus!
