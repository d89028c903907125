use vstd::prelude::*;

verus! {

/// Abstract value of a [`Server`] entry.
pub struct ServerView {
    pub name: Seq<char>,
    pub server: Seq<char>,
    pub password: Seq<char>,
    pub method: Seq<char>,
    pub timeout: Option<u64>,
}

/// One remote shadowsocks server as listed in the configuration file.
#[derive(Debug)]
pub struct Server {
    /// Label shown in the server list.
    pub name: String,
    /// Address of the remote server, `host:port`.
    pub server: String,
    pub password: String,
    /// Cipher name, such as `aes-256-gcm`.
    pub method: String,
    pub timeout: Option<u64>,
}

impl View for Server {
    type V = ServerView;

    open spec fn view(&self) -> ServerView {
        ServerView {
            name: self.name@,
            server: self.server@,
            password: self.password@,
            method: self.method@,
            timeout: self.timeout,
        }
    }
}

/// Abstract value of a [`Config`].
pub struct ConfigView {
    pub select: usize,
    pub autostart: usize,
    pub local_addr: Seq<char>,
    pub servers: Seq<ServerView>,
}

/// The whole client configuration: the server list, which entry is in use,
/// the local SOCKS address and whether the program starts on boot.
#[derive(Debug)]
pub struct Config {
    /// Index into `servers` of the server in use.
    pub select: usize,
    /// Non-zero when the program registers itself to start on boot.
    pub autostart: usize,
    /// Local address the SOCKS proxy listens on, `host:port`.
    pub local_addr: String,
    pub servers: Vec<Server>,
}

impl View for Config {
    type V = ConfigView;

    open spec fn view(&self) -> ConfigView {
        ConfigView {
            select: self.select,
            autostart: self.autostart,
            local_addr: self.local_addr@,
            servers: self.servers@.map_values(|s: Server| s@),
        }
    }
}

/// The configuration used when none could be loaded: no servers, first entry
/// selected, no start on boot, no local address.
pub open spec fn default_config() -> ConfigView {
    ConfigView { select: 0, autostart: 0, local_addr: Seq::empty(), servers: Seq::empty() }
}

/// Whether the configuration asks for the program to start on boot.
pub open spec fn starts_on_boot(c: ConfigView) -> bool {
    c.autostart != 0
}

/// The entry used at start-up: the stored selection when it names an
/// existing server, the first entry otherwise.
pub open spec fn start_index(c: ConfigView) -> usize {
    if c.select >= c.servers.len() {
        0
    } else {
        c.select
    }
}

/// The configuration after the "start on boot" menu item was clicked while
/// its check mark was `checked`.
pub open spec fn toggled_config(c: ConfigView, checked: bool) -> ConfigView {
    ConfigView { autostart: if checked { 0 } else { 1 }, ..c }
}

/// The row that the server list shows for a server: name, address, method.
pub open spec fn row_of(s: ServerView) -> (Seq<char>, Seq<char>, Seq<char>) {
    (s.name, s.server, s.method)
}

impl Default for Config {
    fn default() -> (c: Config)
        ensures
            c@ == default_config(),
            c.select == 0,
            c.autostart == 0,
            c.local_addr@.len() == 0,
            c.servers@.len() == 0,
    {
        let c = Config { select: 0, autostart: 0, local_addr: String::new(), servers: Vec::new() };
        assert(c@.servers =~= Seq::<ServerView>::empty());
        c
    }
}

impl Config {
    /// Whether the program is to start on boot.
    pub fn autostart_enabled(&self) -> (b: bool)
        ensures
            b == starts_on_boot(self@),
            b == (self.autostart != 0),
    {
        self.autostart != 0
    }

    /// Resets the selection to the first entry when it does not name an
    /// existing server, and returns the selection.
    pub fn clamp_select(&mut self) -> (index: usize)
        ensures
            index == start_index(old(self)@),
            final(self)@ == (ConfigView { select: index, ..old(self)@ }),
    {
        if self.select >= self.servers.len() {
            self.select = 0;
        }
        self.select
    }

    /// Flips the "start on boot" setting as the menu item does: a checked item
    /// becomes unchecked and the setting off (0), an unchecked one becomes
    /// checked and the setting on (1). Returns the new check mark.
    pub fn toggle_autostart(&mut self, checked: bool) -> (now_checked: bool)
        ensures
            now_checked == !checked,
            final(self)@ == toggled_config(old(self)@, checked),
            checked ==> final(self).autostart == 0,
            !checked ==> final(self).autostart == 1,
            final(self).select == old(self).select,
            final(self).local_addr@ == old(self).local_addr@,
            final(self)@.servers == old(self)@.servers,
    {
        if checked {
            self.autostart = 0;
            false
        } else {
            self.autostart = 1;
            true
        }
    }

    /// The rows of the server list, one per server in configuration order.
    pub fn list_rows(&self) -> (rows: Vec<(String, String, String)>)
        ensures
            rows@.len() == self@.servers.len(),
            forall|i: int|
                0 <= i < rows@.len() ==> (#[trigger] rows@[i].0@, rows@[i].1@, rows@[i].2@)
                    == row_of(self@.servers[i]),
            forall|i: int|
                0 <= i < rows@.len() ==> #[trigger] rows@[i].0@ == self.servers@[i].name@
                    && rows@[i].1@ == self.servers@[i].server@ && rows@[i].2@
                    == self.servers@[i].method@,
    {
        let mut rows: Vec<(String, String, String)> = Vec::new();
        let n = self.servers.len();
        for k in 0..n
            invariant
                n == self.servers@.len(),
                rows@.len() == k,
                forall|i: int|
                    0 <= i < k ==> (#[trigger] rows@[i].0@, rows@[i].1@, rows@[i].2@)
                        == row_of(self@.servers[i]),
        {
            let s = &self.servers[k];
            rows.push((s.name.clone(), s.server.clone(), s.method.clone()));
        }
        rows
    }
}

/// Start-up selection: the entry chosen at start-up names an existing server
/// whenever there is one, and choosing it again changes nothing.
pub proof fn lemma_start_index_valid(c: ConfigView)
    ensures
        c.servers.len() > 0 ==> start_index(c) < c.servers.len(),
        start_index(ConfigView { select: start_index(c), ..c }) == start_index(c),
{
}

/// A stored selection that names a server is kept at start-up; one that
/// names none gives way to the first entry.
pub proof fn lemma_start_keeps_valid_selection(c: ConfigView)
    ensures
        c.select < c.servers.len() ==> start_index(c) == c.select,
        c.select >= c.servers.len() ==> start_index(c) == 0,
{
}

/// A click on a checked item stores 0, on an unchecked one stores 1, and
/// nothing else in the configuration changes.
pub proof fn lemma_toggle_stores_flag(c: ConfigView)
    ensures
        toggled_config(c, true).autostart == 0,
        toggled_config(c, false).autostart == 1,
        toggled_config(c, true).local_addr == c.local_addr,
        toggled_config(c, false).local_addr == c.local_addr,
        toggled_config(c, false).servers == c.servers,
        toggled_config(c, false).select == c.select,
{
}

/// The default configuration lists no server, selects the first entry, does
/// not start on boot and has no local address.
pub proof fn lemma_default_is_empty()
    ensures
        default_config().servers.len() == 0,
        default_config().select == 0,
        default_config().autostart == 0,
        !starts_on_boot(default_config()),
        default_config().local_addr.len() == 0,
{
}

/// Start on boot is asked for exactly when the stored setting is not zero.
pub proof fn lemma_starts_on_boot_iff_nonzero(c: ConfigView)
    ensures
        starts_on_boot(c) <==> c.autostart != 0,
        c.autostart == 0 ==> !starts_on_boot(c),
        c.autostart == 1 ==> starts_on_boot(c),
{
}

/// A row of the server list shows its server's whole name, address and
/// cipher name, whatever their length.
pub proof fn lemma_row_shows_whole_fields(s: ServerView)
    ensures
        row_of(s).0 == s.name,
        row_of(s).1 == s.server,
        row_of(s).2 == s.method,
        row_of(s).0.len() == s.name.len(),
{
}

/// The menu check mark and the stored setting agree after every click, and
/// two clicks restore the check mark the item had before.
pub proof fn lemma_toggle_agrees_with_setting(c: ConfigView, checked: bool)
    ensures
        starts_on_boot(toggled_config(c, checked)) == !checked,
        starts_on_boot(toggled_config(toggled_config(c, checked), !checked)) == checked,
        toggled_config(c, checked).servers == c.servers,
        toggled_config(c, checked).select == c.select,
{
}

} // verus!
