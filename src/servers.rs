use vstd::prelude::*;
use vstd::string::StringExecFns;
use crate::chars::{chars_of, string_of};
use crate::store::same_text;
use crate::words::{
    decimal, decimal_chars, has_prefix, parse_port, parse_u16, split_once, split_first,
    starts_with, sub_chars, trim, trim_chars,
};

verus! {

/// A configured server.
pub struct Server {
    pub name: String,
    pub address: String,
    pub port: u16,
    pub use_tls: bool,
}

/// TLS is on unless a server's configuration says otherwise.
pub fn default_use_tls() -> (r: bool)
    ensures
        r,
{
    true
}

/// The configured servers, in file order.
pub struct ServerConfig {
    pub servers: Vec<Server>,
}

/// Whether no server before position `i` is named `name`.
pub open spec fn none_named_before(servers: Seq<Server>, name: Seq<char>, i: int) -> bool {
    forall|j: int| 0 <= j < i ==> (#[trigger] servers[j]).name@ != name
}

/// The line that lists a server: `name: address:port`.
pub open spec fn server_line(s: Server) -> Seq<char> {
    s.name@ + ": "@ + s.address@ + ":"@ + decimal(s.port as nat)
}

impl ServerConfig {
    /// The two servers known out of the box: Libera and OFTC, both on 6697
    /// with TLS.
    pub fn default_config() -> (r: ServerConfig)
        ensures
            r.servers@.len() == 2,
            r.servers@[0].name@ == "Libera"@,
            r.servers@[0].address@ == "irc.libera.chat"@,
            r.servers@[0].port == 6697,
            r.servers@[0].use_tls,
            r.servers@[1].name@ == "OFTC"@,
            r.servers@[1].address@ == "irc.oftc.net"@,
            r.servers@[1].port == 6697,
            r.servers@[1].use_tls,
    {
        let mut servers: Vec<Server> = Vec::new();
        servers.push(
            Server {
                name: String::from_str("Libera"),
                address: String::from_str("irc.libera.chat"),
                port: 6697,
                use_tls: true,
            },
        );
        servers.push(
            Server {
                name: String::from_str("OFTC"),
                address: String::from_str("irc.oftc.net"),
                port: 6697,
                use_tls: true,
            },
        );
        ServerConfig { servers }
    }

    /// Position of the first server named `name`.
    pub fn position(&self, name: &str) -> (r: Option<usize>)
        ensures
            r matches Some(i) ==> i < self.servers@.len() && self.servers@[i as int].name@ == name@
                && none_named_before(self.servers@, name@, i as int),
            r is None ==> none_named_before(self.servers@, name@, self.servers@.len() as int),
    {
        let mut i: usize = 0;
        while i < self.servers.len()
            invariant
                i <= self.servers@.len(),
                none_named_before(self.servers@, name@, i as int),
            decreases self.servers@.len() - i,
        {
            if same_text(self.servers[i].name.as_str(), name) {
                return Some(i);
            }
            i = i + 1;
        }
        None
    }

    /// Adds a server unless one of that name exists; tells whether it did.
    pub fn add_server(&mut self, name: String, address: String, port: u16, use_tls: bool) -> (r:
        bool)
        ensures
            r == none_named_before(old(self).servers@, name@, old(self).servers@.len() as int),
            r ==> final(self).servers@ == old(self).servers@.push(
                Server { name, address, port, use_tls },
            ),
            !r ==> final(self).servers@ == old(self).servers@,
    {
        if self.position(name.as_str()).is_some() {
            return false;
        }
        self.servers.push(Server { name, address, port, use_tls });
        true
    }

    /// Removes the first server named `name`; tells whether there was one.
    pub fn remove_server(&mut self, name: &str) -> (r: bool)
        ensures
            r == !none_named_before(old(self).servers@, name@, old(self).servers@.len() as int),
            r ==> exists|i: int|
                0 <= i < old(self).servers@.len() && old(self).servers@[i].name@ == name@
                    && none_named_before(old(self).servers@, name@, i) && final(self).servers@
                    == old(self).servers@.remove(i),
            !r ==> final(self).servers@ == old(self).servers@,
    {
        match self.position(name) {
            Some(i) => {
                self.servers.remove(i);
                true
            },
            None => false,
        }
    }

    /// The first server named `name`.
    pub fn get_server(&self, name: &str) -> (r: Option<&Server>)
        ensures
            r is None == none_named_before(self.servers@, name@, self.servers@.len() as int),
            r matches Some(s) ==> exists|i: int|
                0 <= i < self.servers@.len() && self.servers@[i] == *s && s.name@ == name@
                    && none_named_before(self.servers@, name@, i),
    {
        match self.position(name) {
            Some(i) => Some(&self.servers[i]),
            None => None,
        }
    }

    /// One `name: address:port` line per server, in order.
    pub fn list_servers(&self) -> (r: Vec<String>)
        ensures
            r@.len() == self.servers@.len(),
            forall|i: int| 0 <= i < r@.len() ==> (#[trigger] r@[i])@ == server_line(self.servers@[i]),
    {
        let mut out: Vec<String> = Vec::new();
        let mut i: usize = 0;
        while i < self.servers.len()
            invariant
                i <= self.servers@.len(),
                out@.len() == i,
                forall|j: int| 0 <= j < i ==> (#[trigger] out@[j])@ == server_line(self.servers@[j]),
            decreases self.servers@.len() - i,
        {
            let s = &self.servers[i];
            let mut line = s.name.clone();
            line.append(": ");
            line.append(s.address.as_str());
            line.append(":");
            let digits = string_of(&decimal_chars(s.port));
            line.append(digits.as_str());
            out.push(line);
            i = i + 1;
        }
        out
    }
}

/// What a server address reads as: optional `tls ` prefix, then exactly one
/// `host:port` with a valid port.
pub open spec fn server_address(input: Seq<char>) -> Option<(Seq<char>, u16, bool)> {
    let t = trim(input);
    let tls = starts_with(t, "tls "@);
    let rest = if tls {
        t.subrange(4, t.len() as int)
    } else {
        t
    };
    let (host, after) = split_once(rest, ':');
    match after {
        Some(p) => {
            if split_once(p, ':').1 is None && parse_u16(p) is Some {
                Some((host, parse_u16(p).unwrap(), tls))
            } else {
                None
            }
        },
        None => None,
    }
}

/// Reads `host:port` or `tls host:port`; `None` when the text has no
/// colon, more than one, or a port that is not a 16-bit number.
pub fn read_server_address(input: &str) -> (r: Option<(String, u16, bool)>)
    ensures
        r is None <==> server_address(input@) is None,
        r matches Some(v) ==> server_address(input@) == Some((v.0@, v.1, v.2)),
{
    let t = trim_chars(&chars_of(input));
    let tls = has_prefix(&t, "tls ");
    proof {
        reveal_strlit("tls ");
    }
    let rest = if tls {
        sub_chars(&t, 4, t.len())
    } else {
        t
    };
    let (host, after) = split_first(&rest, ':');
    match after {
        Some(p) => {
            let (_, again) = split_first(&p, ':');
            if again.is_some() {
                return None;
            }
            match parse_port(&p) {
                Some(port) => Some((string_of(&host), port, tls)),
                None => None,
            }
        },
        None => None,
    }
}

/// Reads `host:port` or `tls host:port` into host, port and TLS flag.
pub fn parse_server_address(input: &str) -> (r: (String, u16, bool))
    requires
        server_address(input@) is Some,
    ensures
        server_address(input@) == Some((r.0@, r.1, r.2)),
{
    match read_server_address(input) {
        Some(v) => v,
        None => (String::new(), 0, false),
    }
}

} // verus!
