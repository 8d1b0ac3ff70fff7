use duckirc::servers::{default_use_tls, parse_server_address, read_server_address, ServerConfig};

#[test]
fn default_config_has_two_servers() {
    let c = ServerConfig::default_config();
    assert_eq!(c.servers.len(), 2);
    assert_eq!(c.servers[0].name, "Libera");
    assert_eq!(c.servers[1].address, "irc.oftc.net");
    assert!(default_use_tls());
}

#[test]
fn add_server_refuses_duplicates() {
    let mut c = ServerConfig::default_config();
    assert!(c.add_server("Mine".to_string(), "irc.mine.org".to_string(), 6667, false));
    assert!(!c.add_server("Mine".to_string(), "other".to_string(), 1, true));
    assert_eq!(c.servers.len(), 3);
    assert_eq!(c.get_server("Mine").unwrap().port, 6667);
}

#[test]
fn remove_server_by_name() {
    let mut c = ServerConfig::default_config();
    assert!(c.remove_server("Libera"));
    assert!(!c.remove_server("Libera"));
    assert_eq!(c.servers.len(), 1);
    assert!(c.get_server("Libera").is_none());
}

#[test]
fn list_servers_lines() {
    let c = ServerConfig::default_config();
    assert_eq!(c.list_servers(), vec!["Libera: irc.libera.chat:6697", "OFTC: irc.oftc.net:6697"]);
    let mut d = ServerConfig { servers: vec![] };
    d.add_server("z".to_string(), "h".to_string(), 0, true);
    assert_eq!(d.list_servers(), vec!["z: h:0"]);
}

#[test]
fn server_address_forms() {
    assert_eq!(parse_server_address(" irc.x.org:6667 "), ("irc.x.org".to_string(), 6667, false));
    assert_eq!(parse_server_address("tls irc.x.org:+6697"), ("irc.x.org".to_string(), 6697, true));
    assert!(read_server_address("irc.x.org").is_none());
    assert!(read_server_address("a:b:1").is_none());
    assert!(read_server_address("a:65536").is_none());
    assert!(read_server_address("a:").is_none());
}
