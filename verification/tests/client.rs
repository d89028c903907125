use russ::client::{launch_from, Client, ConnectError, ConnectStep};
use russ::dialog;
use shadowsocks_service::shadowsocks::config::ServerAddr;
use shadowsocks_service::shadowsocks::crypto::CipherKind;
use shadowsocks_service::config::{Config as ServiceConfig, ConfigType, ProtocolType};
use russ::config::{Config, Server};

fn server(name: &str, addr: &str, method: &str) -> Server {
    Server {
        name: name.to_string(),
        server: addr.to_string(),
        password: format!("{}-secret", name),
        method: method.to_string(),
        timeout: None,
    }
}

fn config(select: usize, local: &str, servers: Vec<Server>) -> Config {
    Config { select, autostart: 0, local_addr: local.to_string(), servers }
}

/// The launch of a step that must succeed.
fn launched(step: ConnectStep) -> ServiceConfig {
    assert!(step.stop_previous);
    step.launch.unwrap()
}

/// What the launch holds: server address, password, cipher, local address.
fn summary(cfg: &ServiceConfig) -> (String, String, String, String) {
    assert_eq!(cfg.config_type, ConfigType::Local);
    assert_eq!(cfg.server.len(), 1);
    assert_eq!(cfg.local.len(), 1);
    assert_eq!(cfg.local[0].config.protocol, ProtocolType::Socks);
    let s = &cfg.server[0].config;
    (
        s.addr().to_string(),
        s.password().to_string(),
        s.method().to_string(),
        cfg.local[0].config.addr.as_ref().unwrap().to_string(),
    )
}

fn client(select: usize, local: &str, servers: Vec<Server>) -> Client {
    Client::new(Some(config(select, local, servers)))
}

#[test]
fn new_without_loaded_config_uses_default() {
    let c = Client::new(None);
    assert_eq!(c.config.select, 0);
    assert_eq!(c.config.autostart, 0);
    assert_eq!(c.config.local_addr, "");
    assert!(c.config.servers.is_empty());
    assert!(!c.running);
}

#[test]
fn new_keeps_loaded_config() {
    let c = client(1, "127.0.0.1:1080", vec![server("a", "1.2.3.4:80", "aes-128-gcm"), server("b", "5.6.7.8:90", "aes-256-gcm")]);
    assert_eq!(c.config.select, 1);
    assert_eq!(c.config.servers.len(), 2);
    assert_eq!(c.config.servers[1].name, "b");
    assert!(!c.running);
}

#[test]
fn connect_on_empty_list_is_refused_and_changes_nothing() {
    let mut c = Client::new(None);
    c.config.select = 3;
    c.running = true;
    let step = c.connect(3);
    assert!(!step.stop_previous);
    assert_eq!(step.launch.unwrap_err(), ConnectError::EmptyServers);
    assert_eq!(c.config.select, 3);
    assert!(c.running);
}

#[test]
fn unloaded_client_refuses_every_index() {
    for i in [0usize, 1, 7, usize::MAX] {
        let mut c = Client::new(None);
        assert_eq!(c.connect(i).launch.unwrap_err(), ConnectError::EmptyServers);
        assert_eq!(c.config.select, 0);
        assert!(!c.running);
    }
}

#[test]
fn connect_socket_address_succeeds() {
    let mut c = client(0, "127.0.0.1:1080", vec![server("a", "1.2.3.4:80", "aes-128-gcm"), server("b", "127.0.0.1:8388", "aes-256-gcm")]);
    let cfg = launched(c.connect(1));
    assert_eq!(
        summary(&cfg),
        ("127.0.0.1:8388".to_string(), "b-secret".to_string(), "aes-256-gcm".to_string(), "127.0.0.1:1080".to_string())
    );
    assert_eq!(c.config.select, 1);
    assert!(c.running);
}

#[test]
fn connect_domain_address_succeeds() {
    let mut c = client(0, "[::1]:1080", vec![server("a", "example.com:8388", "chacha20-ietf-poly1305")]);
    let (server, password, method, local) = summary(&launched(c.connect(0)));
    assert_eq!(server, "example.com:8388");
    assert_eq!(password, "a-secret");
    assert_eq!(method, "chacha20-ietf-poly1305");
    assert_eq!(local, "[::1]:1080");
    assert!(c.running);
}

#[test]
fn cipher_names_are_case_insensitive() {
    let mut c = client(0, "127.0.0.1:1080", vec![server("a", "1.2.3.4:80", "AES-256-GCM")]);
    let (_, _, method, _) = summary(&launched(c.connect(0)));
    assert_eq!(method, "aes-256-gcm");
}

#[test]
fn wrong_server_address_stops_proxy_and_selects() {
    let mut c = client(0, "127.0.0.1:1080", vec![server("a", "1.2.3.4:80", "aes-128-gcm"), server("b", "example.com", "aes-256-gcm")]);
    c.running = true;
    let step = c.connect(1);
    assert!(step.stop_previous);
    assert_eq!(step.launch.unwrap_err(), ConnectError::WrongServerAddress);
    assert_eq!(c.config.select, 1);
    assert!(!c.running);
}

#[test]
fn bad_port_and_empty_host_are_wrong_addresses() {
    for addr in ["example.com:70000", ":8388", "example.com:port", ""] {
        let mut c = client(0, "127.0.0.1:1080", vec![server("a", addr, "aes-128-gcm")]);
        assert_eq!(c.connect(0).launch.unwrap_err(), ConnectError::WrongServerAddress, "{}", addr);
    }
}

#[test]
fn wrong_method_is_reported() {
    let mut c = client(0, "127.0.0.1:1080", vec![server("a", "1.2.3.4:80", "no-such-cipher")]);
    assert_eq!(c.connect(0).launch.unwrap_err(), ConnectError::WrongMethod);
    assert!(!c.running);
}

#[test]
fn wrong_local_address_is_reported() {
    let mut c = client(0, "localhost", vec![server("a", "1.2.3.4:80", "aes-128-gcm")]);
    assert_eq!(c.connect(0).launch.unwrap_err(), ConnectError::WrongLocalAddress);
    assert!(!c.running);
}

#[test]
fn server_address_is_checked_before_method_and_local_address() {
    let mut c = client(0, "nowhere", vec![server("a", "nowhere", "nothing")]);
    assert_eq!(c.connect(0).launch.unwrap_err(), ConnectError::WrongServerAddress);
    let mut c = client(0, "nowhere", vec![server("a", "1.2.3.4:80", "nothing")]);
    assert_eq!(c.connect(0).launch.unwrap_err(), ConnectError::WrongMethod);
}

#[test]
fn retry_gives_same_verdict() {
    let mut c = client(0, "127.0.0.1:1080", vec![server("a", "1.2.3.4:80", "nothing")]);
    let first = c.connect(0).launch.unwrap_err();
    let second = c.connect(0).launch.unwrap_err();
    assert_eq!(first, second);
    assert_eq!(c.config.select, 0);
    assert!(!c.running);
}

#[test]
fn select_current_entry_does_nothing() {
    let mut c = client(0, "127.0.0.1:1080", vec![server("a", "1.2.3.4:80", "aes-128-gcm"), server("b", "5.6.7.8:90", "aes-256-gcm")]);
    c.running = true;
    assert!(c.select_server(0).is_none());
    assert!(c.running);
    assert_eq!(c.config.select, 0);
}

#[test]
fn select_other_entry_switches() {
    let mut c = client(0, "127.0.0.1:1080", vec![server("a", "1.2.3.4:80", "aes-128-gcm"), server("b", "5.6.7.8:90", "aes-256-gcm")]);
    let (_, password, _, _) = summary(&launched(c.select_server(1).unwrap()));
    assert_eq!(password, "b-secret");
    assert_eq!(c.config.select, 1);
    assert!(c.running);
}

#[test]
fn reselect_after_failed_switch_is_ignored() {
    let mut c = client(0, "127.0.0.1:1080", vec![server("a", "1.2.3.4:80", "aes-128-gcm"), server("b", "bad", "aes-256-gcm")]);
    assert_eq!(c.select_server(1).unwrap().launch.unwrap_err(), ConnectError::WrongServerAddress);
    assert!(c.select_server(1).is_none());
    assert_eq!(c.config.select, 1);
    assert!(!c.running);
}

#[test]
fn start_falls_back_to_first_entry() {
    let mut c = client(7, "127.0.0.1:1080", vec![server("a", "1.2.3.4:80", "aes-128-gcm"), server("b", "5.6.7.8:90", "aes-256-gcm")]);
    let (_, password, _, _) = summary(&launched(c.start()));
    assert_eq!(password, "a-secret");
    assert_eq!(c.config.select, 0);
    assert!(c.running);
}

#[test]
fn start_keeps_valid_selection() {
    let mut c = client(1, "127.0.0.1:1080", vec![server("a", "1.2.3.4:80", "aes-128-gcm"), server("b", "5.6.7.8:90", "aes-256-gcm")]);
    let (_, password, _, _) = summary(&launched(c.start()));
    assert_eq!(password, "b-secret");
    assert_eq!(c.config.select, 1);
}

#[test]
fn start_with_no_servers_resets_selection_and_refuses() {
    let mut c = client(4, "127.0.0.1:1080", vec![]);
    assert_eq!(c.start().launch.unwrap_err(), ConnectError::EmptyServers);
    assert_eq!(c.config.select, 0);
    assert!(!c.running);
}

#[test]
fn error_messages() {
    assert_eq!(ConnectError::EmptyServers.message(), "Empty servers");
    assert_eq!(ConnectError::WrongServerAddress.message(), "Wrong server address");
    assert_eq!(ConnectError::WrongMethod.message(), "Wrong method");
    assert_eq!(ConnectError::WrongLocalAddress.message(), "Wrong local address");
}

#[test]
fn select_current_entry_with_any_list_does_nothing() {
    let mut c = client(5, "127.0.0.1:1080", vec![server("a", "1.2.3.4:80", "aes-128-gcm")]);
    assert!(c.select_server(5).is_none());
    assert_eq!(c.config.select, 5);
}

#[test]
fn launch_ignores_other_entries_and_name() {
    let mut c1 = client(0, "127.0.0.1:1080", vec![server("a", "1.2.3.4:80", "aes-128-gcm"), server("b", "5.6.7.8:90", "aes-256-gcm")]);
    let mut other = server("renamed", "5.6.7.8:90", "aes-256-gcm");
    other.password = "b-secret".to_string();
    other.timeout = Some(60);
    let mut c2 = client(0, "127.0.0.1:1080", vec![server("zzz", "9.9.9.9:1", "nothing"), other]);
    let s1 = summary(&launched(c1.connect(1)));
    let s2 = summary(&launched(c2.connect(1)));
    assert_eq!(s1, s2);
}

#[test]
fn addresses_are_not_swapped() {
    let mut c = client(0, "127.0.0.1:1080", vec![server("a", "10.0.0.1:8388", "aes-128-gcm")]);
    let (server, _, _, local) = summary(&launched(c.connect(0)));
    assert_eq!(server, "10.0.0.1:8388");
    assert_eq!(local, "127.0.0.1:1080");
}

fn addr(text: &str) -> Option<ServerAddr> {
    Some(text.parse().unwrap())
}

fn cipher(name: &str) -> Option<CipherKind> {
    Some(name.parse().unwrap())
}

#[test]
fn launch_from_reports_first_missing_part() {
    assert_eq!(launch_from(None, None, "pw", None).unwrap_err(), ConnectError::WrongServerAddress);
    assert_eq!(launch_from(addr("1.2.3.4:80"), None, "pw", None).unwrap_err(), ConnectError::WrongMethod);
    assert_eq!(
        launch_from(addr("1.2.3.4:80"), cipher("aes-128-gcm"), "pw", None).unwrap_err(),
        ConnectError::WrongLocalAddress
    );
}

#[test]
fn launch_from_builds_local_socks_proxy() {
    let cfg = launch_from(addr("1.2.3.4:80"), cipher("aes-128-gcm"), "pw", addr("127.0.0.1:1080")).unwrap();
    assert_eq!(
        summary(&cfg),
        ("1.2.3.4:80".to_string(), "pw".to_string(), "aes-128-gcm".to_string(), "127.0.0.1:1080".to_string())
    );
}

#[test]
fn connect_button_without_pick_does_nothing() {
    let mut c = client(0, "127.0.0.1:1080", vec![server("a", "1.2.3.4:80", "aes-128-gcm")]);
    c.running = true;
    assert!(dialog::connect(&mut c, None).is_none());
    assert!(c.running);
    assert_eq!(c.config.select, 0);
}

#[test]
fn connect_button_twice_switches_once() {
    let mut c = client(0, "127.0.0.1:1080", vec![server("a", "1.2.3.4:80", "aes-128-gcm"), server("b", "5.6.7.8:90", "aes-256-gcm")]);
    let (_, password, _, _) = summary(&launched(dialog::connect(&mut c, Some(1)).unwrap()));
    assert_eq!(password, "b-secret");
    assert!(dialog::connect(&mut c, Some(1)).is_none());
    assert_eq!(c.config.select, 1);
    assert!(c.running);
}
