//! The client state machine: which server is in use, whether a local proxy
//! runs for it, and what switching to a server yields.

use crate::config::{default_config, start_index, Config, ConfigView};
use crate::shadowsocks::{
    add_local, add_server, cipher_parse, local_config_new, new_local_config, new_server_config,
    new_service_config, parse_cipher, parse_server_addr, server_addr_parse, server_config_new,
    service_config_add_local, service_config_add_server, service_config_new, LocalProtocol,
    ServiceKind,
};
use shadowsocks_service::config::Config as ServiceConfig;
use shadowsocks_service::shadowsocks::config::ServerAddr;
use shadowsocks_service::shadowsocks::crypto::CipherKind;
use shadowsocks_service::shadowsocks::ServerConfig;
use vstd::prelude::*;

verus! {

/// Why switching to a server failed.
#[derive(Debug, Clone, Copy, PartialEq, Eq, Structural)]
pub enum ConnectError {
    /// The configuration lists no server.
    EmptyServers,
    /// The selected server's address does not parse.
    WrongServerAddress,
    /// The selected server's cipher name is unknown.
    WrongMethod,
    /// The local listening address does not parse.
    WrongLocalAddress,
}

/// The text shown for each error.
pub open spec fn connect_error_message(e: ConnectError) -> Seq<char> {
    match e {
        ConnectError::EmptyServers => "Empty servers"@,
        ConnectError::WrongServerAddress => "Wrong server address"@,
        ConnectError::WrongMethod => "Wrong method"@,
        ConnectError::WrongLocalAddress => "Wrong local address"@,
    }
}

impl ConnectError {
    /// The text shown for this error.
    pub fn message(&self) -> (m: &'static str)
        ensures
            m@ == connect_error_message(*self),
    {
        match self {
            ConnectError::EmptyServers => "Empty servers",
            ConnectError::WrongServerAddress => "Wrong server address",
            ConnectError::WrongMethod => "Wrong method",
            ConnectError::WrongLocalAddress => "Wrong local address",
        }
    }
}

/// What a switch to a server asks of whoever runs the proxy: whether to stop
/// the proxy that ran before, and the configuration to start a new one with,
/// or why none can start.
pub struct ConnectStep {
    pub stop_previous: bool,
    pub launch: Result<ServiceConfig, ConnectError>,
}

/// Abstract value of a [`Client`].
pub struct ClientView {
    pub config: ConfigView,
    pub running: bool,
}

/// The client: its configuration, and whether a local proxy was started for
/// the selected server and has not been stopped since.
pub struct Client {
    pub config: Config,
    pub running: bool,
}

impl View for Client {
    type V = ClientView;

    open spec fn view(&self) -> ClientView {
        ClientView { config: self.config@, running: self.running }
    }
}

/// The service configuration of a local SOCKS proxy on `local` that relays
/// through `server`.
pub open spec fn local_proxy_config(
    server: ServerConfig,
    local: ServerAddr,
) -> ServiceConfig {
    service_config_add_local(
        service_config_add_server(service_config_new(ServiceKind::Local), server),
        local_config_new(local, LocalProtocol::Socks),
    )
}

/// What the proxy is launched with, given what the parsers made of the
/// entry's address, its cipher name and the local address: the first that
/// did not parse gives the error, in that order; otherwise a local SOCKS
/// proxy on the local address that relays through the entry's server with
/// the entry's password.
pub open spec fn launch_outcome(
    server_addr: Option<ServerAddr>,
    method: Option<CipherKind>,
    password: Seq<char>,
    local_addr: Option<ServerAddr>,
) -> Result<ServiceConfig, ConnectError> {
    match server_addr {
        None => Err(ConnectError::WrongServerAddress),
        Some(addr) => match method {
            None => Err(ConnectError::WrongMethod),
            Some(method) => match local_addr {
                None => Err(ConnectError::WrongLocalAddress),
                Some(local) => Ok(
                    local_proxy_config(server_config_new(addr, password, method), local),
                ),
            },
        },
    }
}

/// The outcome of switching to entry `index`: refused when no server is
/// listed, else the launch from the entry's address, cipher and password and
/// the local address, as the parsers read them.
pub open spec fn connect_outcome(c: ConfigView, index: int) -> Result<ServiceConfig, ConnectError> {
    if c.servers.len() == 0 {
        Err(ConnectError::EmptyServers)
    } else {
        launch_outcome(
            server_addr_parse(c.servers[index].server),
            cipher_parse(c.servers[index].method),
            c.servers[index].password,
            server_addr_parse(c.local_addr),
        )
    }
}

/// The client after switching to entry `index`. With no server nothing
/// changes; otherwise the running proxy is stopped, the entry becomes the
/// selection, and a new proxy runs exactly when the switch succeeded.
pub open spec fn after_connect(c: ClientView, index: usize) -> ClientView {
    if c.config.servers.len() == 0 {
        c
    } else {
        ClientView {
            config: ConfigView { select: index, ..c.config },
            running: connect_outcome(c.config, index as int) is Ok,
        }
    }
}

/// The client after entry `index` was picked in the server list: picking the
/// current selection does nothing, any other entry is switched to.
pub open spec fn after_select(c: ClientView, index: usize) -> ClientView {
    if index == c.config.select {
        c
    } else {
        after_connect(c, index)
    }
}

/// The client after start-up: the stored selection is kept when it names a
/// server, replaced by the first entry otherwise, and switched to.
pub open spec fn after_start(c: ClientView) -> ClientView {
    after_connect(
        ClientView { config: ConfigView { select: start_index(c.config), ..c.config }, ..c },
        start_index(c.config),
    )
}

/// What a switch to entry `index` asks for: the previous proxy is stopped
/// unless the list is empty, and the launch is the switch's outcome.
pub open spec fn step_matches(step: ConnectStep, c: ConfigView, index: int) -> bool {
    &&& step.stop_previous == (c.servers.len() > 0)
    &&& step.launch == connect_outcome(c, index)
}

/// An index that a switch accepts: any, when there is no server (the switch
/// is refused), else one that names a server.
pub open spec fn connectable(c: ConfigView, index: usize) -> bool {
    c.servers.len() == 0 || index < c.servers.len()
}

/// Builds the launch from what the parsers made of a server's address, its
/// cipher name and the local address, with the server's password: the first
/// that did not parse gives the error, in that order; otherwise the
/// configuration of a local SOCKS proxy on the local address that relays
/// through the server.
pub fn launch_from(
    server_addr: Option<ServerAddr>,
    method: Option<CipherKind>,
    password: &str,
    local_addr: Option<ServerAddr>,
) -> (launch: Result<ServiceConfig, ConnectError>)
    ensures
        launch == launch_outcome(server_addr, method, password@, local_addr),
{
    match server_addr {
        None => Err(ConnectError::WrongServerAddress),
        Some(addr) => match method {
            None => Err(ConnectError::WrongMethod),
            Some(method) => match local_addr {
                None => Err(ConnectError::WrongLocalAddress),
                Some(local) => {
                    let server = new_server_config(addr, password, method).unwrap();
                    let mut service = new_service_config(ServiceKind::Local);
                    add_server(&mut service, server);
                    add_local(&mut service, new_local_config(local, LocalProtocol::Socks));
                    Ok(service)
                },
            },
        },
    }
}

impl Client {
    /// A client over the configuration that was loaded, or over the default
    /// one when loading failed. No proxy runs yet.
    pub fn new(loaded: Option<Config>) -> (client: Client)
        ensures
            client@.config == (match loaded {
                Some(c) => c@,
                None => default_config(),
            }),
            !client@.running,
    {
        let config = match loaded {
            Some(c) => c,
            None => Config::default(),
        };
        Client { config, running: false }
    }

    /// Switches to entry `index`: stops the running proxy, makes the entry
    /// the selection and, when its address, its cipher and the local address
    /// all parse, returns the configuration of the new proxy. With no server listed it refuses and changes nothing.
    pub fn connect(&mut self, index: usize) -> (step: ConnectStep)
        requires
            connectable(old(self)@.config, index),
        ensures
            final(self)@ == after_connect(old(self)@, index),
            step_matches(step, old(self)@.config, index as int),
    {
        if self.config.servers.len() == 0 {
            return ConnectStep { stop_previous: false, launch: Err(ConnectError::EmptyServers) };
        }
        self.running = false;
        self.config.select = index;
        let entry = &self.config.servers[index];
        let server_addr = parse_server_addr(entry.server.as_str());
        let method = parse_cipher(entry.method.as_str());
        let local_addr = parse_server_addr(self.config.local_addr.as_str());
        let launch = launch_from(server_addr, method, entry.password.as_str(), local_addr);
        self.running = launch.is_ok();
        ConnectStep { stop_previous: true, launch }
    }

    /// Reacts to entry `index` being picked in the server list: nothing
    /// happens (`None`) when it is already the selection, otherwise the
    /// client switches to it.
    pub fn select_server(&mut self, index: usize) -> (r: Option<ConnectStep>)
        requires
            index == old(self)@.config.select || connectable(old(self)@.config, index),
        ensures
            final(self)@ == after_select(old(self)@, index),
            r is None <==> index == old(self)@.config.select,
            r matches Some(step) ==> step_matches(step, old(self)@.config, index as int),
    {
        if self.config.select == index {
            None
        } else {
            Some(self.connect(index))
        }
    }

    /// Start-up: falls back to the first entry when the stored selection
    /// names no server, then switches to the selection.
    pub fn start(&mut self) -> (step: ConnectStep)
        ensures
            final(self)@ == after_start(old(self)@),
            step_matches(
                step,
                ConfigView { select: start_index(old(self)@.config), ..old(self)@.config },
                start_index(old(self)@.config) as int,
            ),
    {
        let index = self.config.clamp_select();
        self.connect(index)
    }
}

/// A client whose configuration could not be loaded refuses every switch,
/// and the refusal leaves it unchanged.
pub proof fn lemma_unloaded_client_refuses(index: usize)
    ensures
        connect_outcome(default_config(), index as int) == Err::<ServiceConfig, ConnectError>(
            ConnectError::EmptyServers,
        ),
        after_connect(ClientView { config: default_config(), running: false }, index)
            == (ClientView { config: default_config(), running: false }),
{
}

/// A switch on an empty server list is refused and changes nothing; on a
/// non-empty list it always makes the entry the selection, leaves the rest of
/// the configuration as it was, and a proxy runs afterwards exactly when the
/// switch succeeded, whatever ran before.
pub proof fn lemma_connect_effect(c: ClientView, index: usize)
    ensures
        c.config.servers.len() == 0 ==> after_connect(c, index) == c
            && connect_outcome(c.config, index as int) == Err::<ServiceConfig, ConnectError>(
            ConnectError::EmptyServers,
        ),
        c.config.servers.len() > 0 ==> after_connect(c, index).config == (ConfigView {
            select: index,
            ..c.config
        }),
        c.config.servers.len() > 0 ==> (after_connect(c, index).running <==> connect_outcome(
            c.config,
            index as int,
        ) is Ok),
{
}

/// Retrying a switch to the same entry gives the same verdict and the same
/// client.
pub proof fn lemma_retry_same_verdict(c: ClientView, index: usize)
    ensures
        connect_outcome(after_connect(c, index).config, index as int) == connect_outcome(
            c.config,
            index as int,
        ),
        after_connect(after_connect(c, index), index) == after_connect(c, index),
{
}

/// Picking an entry in the server list a second time does nothing: after a
/// switch to a server, picking it again is ignored, whatever the first
/// switch's verdict.
pub proof fn lemma_reselect_is_noop(c: ClientView, index: usize)
    requires
        c.config.servers.len() > 0,
    ensures
        after_select(after_connect(c, index), index) == after_connect(c, index),
        after_select(after_select(c, index), index) == after_select(c, index),
{
}

/// Start-up always switches to an entry that names a server when there is
/// one, and leaves that entry selected.
pub proof fn lemma_start_selects(c: ClientView)
    ensures
        connectable(ConfigView { select: start_index(c.config), ..c.config }, start_index(c.config)),
        after_start(c).config.select == start_index(c.config),
{
}

/// What a switch launches depends only on the chosen entry's address, cipher
/// and password and on the local address: the other entries, and the chosen
/// entry's name and timeout, play no part.
pub proof fn lemma_launch_depends_only_on_entry(c1: ConfigView, c2: ConfigView, index: usize)
    requires
        index < c1.servers.len(),
        index < c2.servers.len(),
        c1.servers[index as int].server == c2.servers[index as int].server,
        c1.servers[index as int].method == c2.servers[index as int].method,
        c1.servers[index as int].password == c2.servers[index as int].password,
        c1.local_addr == c2.local_addr,
    ensures
        connect_outcome(c1, index as int) == connect_outcome(c2, index as int),
{
}

/// A switch to a listed server succeeds exactly when its address, its cipher
/// name and the local address all parse.
pub proof fn lemma_connect_succeeds_when_all_parse(c: ConfigView, index: usize)
    requires
        index < c.servers.len(),
    ensures
        connect_outcome(c, index as int) is Ok <==> (server_addr_parse(
            c.servers[index as int].server,
        ) is Some && cipher_parse(c.servers[index as int].method) is Some && server_addr_parse(
            c.local_addr,
        ) is Some),
{
}

/// A launch built from parsed parts relays through the given server address
/// with the given cipher and exactly the given password, whatever its length,
/// and listens on the given local address.
pub proof fn lemma_launch_carries_parts(
    addr: ServerAddr,
    method: CipherKind,
    password: Seq<char>,
    local: ServerAddr,
)
    ensures
        launch_outcome(Some(addr), Some(method), password, Some(local)) == Ok::<
            ServiceConfig,
            ConnectError,
        >(
            service_config_add_local(
                service_config_add_server(
                    service_config_new(ServiceKind::Local),
                    server_config_new(addr, password, method),
                ),
                local_config_new(local, LocalProtocol::Socks),
            ),
        ),
{
}

/// A switch to a listed server whose address, cipher name and the local
/// address all parse launches a local SOCKS proxy on the parsed local address
/// that relays through the parsed server address, with the parsed cipher and
/// the entry's password unchanged.
pub proof fn lemma_connect_launches_entry(
    c: ConfigView,
    index: usize,
    addr: ServerAddr,
    method: CipherKind,
    local: ServerAddr,
)
    requires
        index < c.servers.len(),
        server_addr_parse(c.servers[index as int].server) == Some(addr),
        cipher_parse(c.servers[index as int].method) == Some(method),
        server_addr_parse(c.local_addr) == Some(local),
    ensures
        connect_outcome(c, index as int) == Ok::<ServiceConfig, ConnectError>(
            service_config_add_local(
                service_config_add_server(
                    service_config_new(ServiceKind::Local),
                    server_config_new(addr, c.servers[index as int].password, method),
                ),
                local_config_new(local, LocalProtocol::Socks),
            ),
        ),
{
}

/// A switch to a listed server launches from that entry's own address,
/// cipher name and password and the local address, as the parsers read them.
pub proof fn lemma_connect_uses_entry(c: ConfigView, index: usize)
    requires
        index < c.servers.len(),
    ensures
        connect_outcome(c, index as int) == launch_outcome(
            server_addr_parse(c.servers[index as int].server),
            cipher_parse(c.servers[index as int].method),
            c.servers[index as int].password,
            server_addr_parse(c.local_addr),
        ),
{
}

} // verus!
