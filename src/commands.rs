use vstd::prelude::*;

use crate::words::{has_prefix, is_text, parse_port, parse_u16, split_first, split_once, split_words, starts_with, trim, trim_chars, words};

verus! {

/// Arguments of `add_server <name> <address> <port> [tls]`.
pub enum AddServerArgs {
    /// fewer than three arguments
    Missing,
    /// the port is not a 16-bit number
    BadPort,
    Valid { name: Vec<char>, address: Vec<char>, port: u16, use_tls: bool },
}

/// A completed command line, read against the verb table.
pub enum LineCommand {
    Quit,
    Clear,
    /// switch to the line-oriented mode
    Vimless,
    /// back from the line-oriented mode
    Vim,
    /// set the nick; `None` when the argument is missing
    Nick(Option<Vec<char>>),
    /// connect to a server by name or address; `None` when missing
    Connect(Option<Vec<char>>),
    Disconnect,
    /// join a channel; `None` when missing
    Join(Option<Vec<char>>),
    /// a private message: target and text; `None` when either is missing
    Msg(Option<(Vec<char>, Vec<char>)>),
    ListServers,
    AddServer(AddServerArgs),
    /// remove a configured server; `None` when missing
    RemoveServer(Option<Vec<char>>),
    Status,
    Empty,
    /// no verb matched
    Unknown,
}

pub enum AddServerView {
    Missing,
    BadPort,
    Valid { name: Seq<char>, address: Seq<char>, port: u16, use_tls: bool },
}

pub enum LineView {
    Quit,
    Clear,
    Vimless,
    Vim,
    Nick(Option<Seq<char>>),
    Connect(Option<Seq<char>>),
    Disconnect,
    Join(Option<Seq<char>>),
    Msg(Option<(Seq<char>, Seq<char>)>),
    ListServers,
    AddServer(AddServerView),
    RemoveServer(Option<Seq<char>>),
    Status,
    Empty,
    Unknown,
}

pub open spec fn opt_view(o: Option<Vec<char>>) -> Option<Seq<char>> {
    match o {
        Some(v) => Some(v@),
        None => None,
    }
}

impl View for LineCommand {
    type V = LineView;

    open spec fn view(&self) -> LineView {
        match self {
            LineCommand::Quit => LineView::Quit,
            LineCommand::Clear => LineView::Clear,
            LineCommand::Vimless => LineView::Vimless,
            LineCommand::Vim => LineView::Vim,
            LineCommand::Nick(a) => LineView::Nick(opt_view(*a)),
            LineCommand::Connect(a) => LineView::Connect(opt_view(*a)),
            LineCommand::Disconnect => LineView::Disconnect,
            LineCommand::Join(a) => LineView::Join(opt_view(*a)),
            LineCommand::Msg(a) => LineView::Msg(
                match a {
                    Some(p) => Some((p.0@, p.1@)),
                    None => None,
                },
            ),
            LineCommand::ListServers => LineView::ListServers,
            LineCommand::AddServer(a) => LineView::AddServer(
                match a {
                    AddServerArgs::Missing => AddServerView::Missing,
                    AddServerArgs::BadPort => AddServerView::BadPort,
                    AddServerArgs::Valid { name, address, port, use_tls } => AddServerView::Valid {
                        name: name@,
                        address: address@,
                        port: *port,
                        use_tls: *use_tls,
                    },
                },
            ),
            LineCommand::RemoveServer(a) => LineView::RemoveServer(opt_view(*a)),
            LineCommand::Status => LineView::Status,
            LineCommand::Empty => LineView::Empty,
            LineCommand::Unknown => LineView::Unknown,
        }
    }
}

/// The trimmed text after the first space, if there is a space.
pub open spec fn rest_arg(s: Seq<char>) -> Option<Seq<char>> {
    match split_once(s, ' ').1 {
        Some(r) => Some(trim(r)),
        None => None,
    }
}

/// `splitn(3, ' ')`: the trimmed second part and the untouched third part,
/// when both are there.
pub open spec fn msg_args(s: Seq<char>) -> Option<(Seq<char>, Seq<char>)> {
    match split_once(s, ' ').1 {
        Some(r) => match split_once(r, ' ').1 {
            Some(text) => Some((trim(split_once(r, ' ').0), text)),
            None => None,
        },
        None => None,
    }
}

/// The arguments of `add_server`, from the line's whitespace tokens: TLS is
/// on unless the fifth token reads `false`.
pub open spec fn add_server_args(w: Seq<Seq<char>>) -> AddServerView {
    if w.len() < 4 {
        AddServerView::Missing
    } else if parse_u16(w[3]) is None {
        AddServerView::BadPort
    } else {
        AddServerView::Valid {
            name: w[1],
            address: w[2],
            port: parse_u16(w[3]).unwrap(),
            use_tls: !(w.len() > 4 && w[4] == "false"@),
        }
    }
}

/// How Command mode reads a line.
pub open spec fn command_line(s: Seq<char>) -> LineView {
    if s == "quit"@ || s == "q"@ {
        LineView::Quit
    } else if s == "clear"@ || s == "c"@ {
        LineView::Clear
    } else if s == "Vimless"@ || s == "vimless"@ {
        LineView::Vimless
    } else if starts_with(s, "set_nick"@) || starts_with(s, "nick"@) {
        LineView::Nick(rest_arg(s))
    } else if starts_with(s, "connect"@) {
        LineView::Connect(rest_arg(s))
    } else if starts_with(s, "disconnect"@) {
        LineView::Disconnect
    } else if starts_with(s, "join"@) {
        LineView::Join(rest_arg(s))
    } else if starts_with(s, "msg"@) {
        LineView::Msg(msg_args(s))
    } else if s == "servers"@ || s == "list_servers"@ {
        LineView::ListServers
    } else if starts_with(s, "add_server"@) || starts_with(s, "add"@) {
        LineView::AddServer(add_server_args(words(s)))
    } else if starts_with(s, "remove_server"@) || starts_with(s, "rm_server"@) {
        LineView::RemoveServer(rest_arg(s))
    } else if s == "status"@ {
        LineView::Status
    } else if s.len() == 0 {
        LineView::Empty
    } else {
        LineView::Unknown
    }
}

/// How the line-oriented mode reads a line: `/`-verbs, anything else is chat.
pub open spec fn vimless_line(s: Seq<char>) -> LineView {
    if s == "/quit"@ || s == "/q"@ {
        LineView::Quit
    } else if s == "/vim"@ || s == "/v"@ {
        LineView::Vim
    } else if starts_with(s, "/nick"@) {
        LineView::Nick(rest_arg(s))
    } else if starts_with(s, "/connect"@) {
        LineView::Connect(rest_arg(s))
    } else if starts_with(s, "/disconnect"@) {
        LineView::Disconnect
    } else if starts_with(s, "/join"@) {
        LineView::Join(rest_arg(s))
    } else if starts_with(s, "/msg"@) {
        LineView::Msg(msg_args(s))
    } else {
        LineView::Unknown
    }
}

fn read_rest(s: &Vec<char>) -> (r: Option<Vec<char>>)
    ensures
        opt_view(r) == rest_arg(s@),
{
    let (_, rest) = split_first(s, ' ');
    match rest {
        Some(r) => Some(trim_chars(&r)),
        None => None,
    }
}

fn read_msg(s: &Vec<char>) -> (r: Option<(Vec<char>, Vec<char>)>)
    ensures
        match r {
            Some(p) => msg_args(s@) == Some((p.0@, p.1@)),
            None => msg_args(s@) is None,
        },
{
    let (_, rest) = split_first(s, ' ');
    match rest {
        Some(r) => {
            let (target, text) = split_first(&r, ' ');
            match text {
                Some(t) => Some((trim_chars(&target), t)),
                None => None,
            }
        },
        None => None,
    }
}

fn read_add_server(s: &Vec<char>) -> (r: AddServerArgs)
    ensures
        (LineCommand::AddServer(r))@ == LineView::AddServer(add_server_args(words(s@))),
{
    let w = split_words(s);
    if w.len() < 4 {
        return AddServerArgs::Missing;
    }
    match parse_port(&w[3]) {
        None => AddServerArgs::BadPort,
        Some(port) => {
            let use_tls = !(w.len() > 4 && is_text(&w[4], "false"));
            AddServerArgs::Valid { name: w[1].clone(), address: w[2].clone(), port, use_tls }
        },
    }
}

/// Reads a Command-mode line against the verb table.
pub fn parse_command_line(s: &Vec<char>) -> (r: LineCommand)
    ensures
        r@ == command_line(s@),
{
    if is_text(s, "quit") || is_text(s, "q") {
        LineCommand::Quit
    } else if is_text(s, "clear") || is_text(s, "c") {
        LineCommand::Clear
    } else if is_text(s, "Vimless") || is_text(s, "vimless") {
        LineCommand::Vimless
    } else if has_prefix(s, "set_nick") || has_prefix(s, "nick") {
        LineCommand::Nick(read_rest(s))
    } else if has_prefix(s, "connect") {
        LineCommand::Connect(read_rest(s))
    } else if has_prefix(s, "disconnect") {
        LineCommand::Disconnect
    } else if has_prefix(s, "join") {
        LineCommand::Join(read_rest(s))
    } else if has_prefix(s, "msg") {
        LineCommand::Msg(read_msg(s))
    } else if is_text(s, "servers") || is_text(s, "list_servers") {
        LineCommand::ListServers
    } else if has_prefix(s, "add_server") || has_prefix(s, "add") {
        LineCommand::AddServer(read_add_server(s))
    } else if has_prefix(s, "remove_server") || has_prefix(s, "rm_server") {
        LineCommand::RemoveServer(read_rest(s))
    } else if is_text(s, "status") {
        LineCommand::Status
    } else if s.len() == 0 {
        LineCommand::Empty
    } else {
        LineCommand::Unknown
    }
}

/// Reads a line of the line-oriented mode.
pub fn parse_vimless_line(s: &Vec<char>) -> (r: LineCommand)
    ensures
        r@ == vimless_line(s@),
{
    if is_text(s, "/quit") || is_text(s, "/q") {
        LineCommand::Quit
    } else if is_text(s, "/vim") || is_text(s, "/v") {
        LineCommand::Vim
    } else if has_prefix(s, "/nick") {
        LineCommand::Nick(read_rest(s))
    } else if has_prefix(s, "/connect") {
        LineCommand::Connect(read_rest(s))
    } else if has_prefix(s, "/disconnect") {
        LineCommand::Disconnect
    } else if has_prefix(s, "/join") {
        LineCommand::Join(read_rest(s))
    } else if has_prefix(s, "/msg") {
        LineCommand::Msg(read_msg(s))
    } else {
        LineCommand::Unknown
    }
}

} // verus!
