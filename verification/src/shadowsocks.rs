//! The parts of the shadowsocks crates that the client logic calls, with the
//! contracts this library relies on.

use shadowsocks_service::config::Config as ServiceConfig;
use shadowsocks_service::config::{
    ConfigType, LocalConfig, LocalInstanceConfig, ProtocolType, ServerInstanceConfig,
};
use shadowsocks_service::shadowsocks::config::ServerAddr;
use shadowsocks_service::shadowsocks::crypto::CipherKind;
use shadowsocks_service::shadowsocks::ServerConfig;
use vstd::prelude::*;

verus! {

/// A server address as parsed by the shadowsocks crate: either a socket
/// address or a domain name with a port.
#[verifier::external_type_specification]
#[verifier::external_body]
pub struct ExServerAddr(ServerAddr);

/// A cipher of the shadowsocks crypto crate.
#[verifier::external_type_specification]
#[verifier::external_body]
pub struct ExCipherKind(CipherKind);

/// A remote server's settings: address, password, cipher and derived key.
#[verifier::external_type_specification]
#[verifier::external_body]
pub struct ExServerConfig(ServerConfig);

/// A local listener's settings: address and protocol.
#[verifier::external_type_specification]
#[verifier::external_body]
pub struct ExLocalConfig(LocalConfig);

/// The whole configuration a shadowsocks service runs with.
#[verifier::external_type_specification]
#[verifier::external_body]
pub struct ExServiceConfig(ServiceConfig);

/// The kinds of service configuration (`ConfigType` of shadowsocks-service,
/// as built here).
#[derive(Debug, Clone, Copy, PartialEq, Eq, Structural)]
pub enum ServiceKind {
    Local,
    Server,
    Manager,
}

/// The protocols a local listener speaks (`ProtocolType` of
/// shadowsocks-service, as built here).
#[derive(Debug, Clone, Copy, PartialEq, Eq, Structural)]
pub enum LocalProtocol {
    Socks,
}

/// What `<ServerAddr as FromStr>::from_str` gives for the text: an address
/// when the text is a socket address, or when its first two `:`-separated
/// fields are a non-empty host and a port number; nothing otherwise.
pub uninterp spec fn server_addr_parse(text: Seq<char>) -> Option<ServerAddr>;

/// What `<CipherKind as FromStr>::from_str` gives for the name: the cipher of
/// that name (compared in lower case) when this build supports it.
pub uninterp spec fn cipher_parse(name: Seq<char>) -> Option<CipherKind>;

/// What `ServerConfig::new(addr, password, method)` gives when it succeeds.
pub uninterp spec fn server_config_new(
    addr: ServerAddr,
    password: Seq<char>,
    method: CipherKind,
) -> ServerConfig;

/// What `LocalConfig::new_with_addr(addr, protocol)` gives.
pub uninterp spec fn local_config_new(addr: ServerAddr, protocol: LocalProtocol) -> LocalConfig;

/// What `Config::new(kind)` gives: an empty service configuration.
pub uninterp spec fn service_config_new(kind: ServiceKind) -> ServiceConfig;

/// The service configuration after `server` was appended to its servers.
pub uninterp spec fn service_config_add_server(config: ServiceConfig, server: ServerConfig) -> ServiceConfig;

/// The service configuration after `local` was appended to its listeners.
pub uninterp spec fn service_config_add_local(config: ServiceConfig, local: LocalConfig) -> ServiceConfig;

/// Calls `ServerAddr::from_str` (shadowsocks). Claims the result is the one
/// named by `server_addr_parse`, and that accepted text holds a `:` (a socket
/// address and the `host:port` form both do).
#[verifier::external_body]
pub(crate) fn parse_server_addr(text: &str) -> (addr: Option<ServerAddr>)
    ensures
        addr == server_addr_parse(text@),
        addr is Some ==> text@.contains(':'),
{
    text.parse::<ServerAddr>().ok()
}

/// Calls `CipherKind::from_str` (shadowsocks-crypto). Claims the result is
/// the one named by `cipher_parse`.
#[verifier::external_body]
pub(crate) fn parse_cipher(name: &str) -> (kind: Option<CipherKind>)
    ensures
        kind == cipher_parse(name@),
{
    name.parse::<CipherKind>().ok()
}

/// Calls `ServerConfig::new` (shadowsocks), which derives the key from the
/// password. Claims that it succeeds, with the result named by
/// `server_config_new`: only ciphers of the 2022 edition can reject a
/// password, and this build (feature `aead-cipher` alone) has none of them,
/// so the key is derived by `openssl_bytes_to_key`, which cannot fail.
#[verifier::external_body]
pub(crate) fn new_server_config(addr: ServerAddr, password: &str, method: CipherKind) -> (config:
    Option<ServerConfig>)
    ensures
        config == Some(server_config_new(addr, password@, method)),
{
    ServerConfig::new(addr, password, method).ok()
}

/// Calls `LocalConfig::new_with_addr` (shadowsocks-service). Claims the
/// result is the one named by `local_config_new`.
#[verifier::external_body]
pub(crate) fn new_local_config(addr: ServerAddr, protocol: LocalProtocol) -> (config: LocalConfig)
    ensures
        config == local_config_new(addr, protocol),
{
    let protocol = match protocol {
        LocalProtocol::Socks => ProtocolType::Socks,
    };
    LocalConfig::new_with_addr(addr, protocol)
}

/// Calls `Config::new` (shadowsocks-service). Claims the result is the one
/// named by `service_config_new`.
#[verifier::external_body]
pub(crate) fn new_service_config(kind: ServiceKind) -> (config: ServiceConfig)
    ensures
        config == service_config_new(kind),
{
    let kind = match kind {
        ServiceKind::Local => ConfigType::Local,
        ServiceKind::Server => ConfigType::Server,
        ServiceKind::Manager => ConfigType::Manager,
    };
    ServiceConfig::new(kind)
}

/// Appends `server`, wrapped by `ServerInstanceConfig::with_server_config`
/// (shadowsocks-service), to the configuration's servers. Claims the result
/// is the one named by `service_config_add_server`.
#[verifier::external_body]
pub(crate) fn add_server(config: &mut ServiceConfig, server: ServerConfig)
    ensures
        *final(config) == service_config_add_server(*old(config), server),
{
    config.server.push(ServerInstanceConfig::with_server_config(server));
}

/// Appends `local`, wrapped by `LocalInstanceConfig::with_local_config`
/// (shadowsocks-service), to the configuration's listeners. Claims the result
/// is the one named by `service_config_add_local`.
#[verifier::external_body]
pub(crate) fn add_local(config: &mut ServiceConfig, local: LocalConfig)
    ensures
        *final(config) == service_config_add_local(*old(config), local),
{
    config.local.push(LocalInstanceConfig::with_local_config(local));
}

} // verus!
