use vstd::prelude::*;

use crate::common::cli::Commands;
use crate::common::strings::chars_of;
use crate::http::{
    is_default_server_config, is_default_tunnel_config, HttpServerConfig, HttpTunnelConfig,
};
use crate::hub::HubConfiguration;

verus! {

/// The regex crate's compiled `Regex`, carried as an opaque value.
#[verifier::external_type_specification]
#[verifier::external_body]
pub struct ExRegex(regex::Regex);

/// Whether the regex crate accepts `pattern` (`Regex::new` succeeds).
pub uninterp spec fn regex_compiles(pattern: Seq<char>) -> bool;

/// Whether the regex `pattern` matches somewhere in `haystack` (`Regex::is_match`).
pub uninterp spec fn regex_finds(pattern: Seq<char>, haystack: Seq<char>) -> bool;

/// `regex::Regex::new`: `Some` exactly when the crate accepts the pattern.
#[verifier::external_body]
fn compile_regex(pattern: &str) -> (out: Option<regex::Regex>)
    ensures
        out is Some <==> regex_compiles(pattern@),
{
    regex::Regex::new(pattern).ok()
}

/// A compiled regular expression, kept with the text it was compiled from.
pub struct Pattern {
    source: String,
    compiled: regex::Regex,
}

/// `regex::Regex::is_match` on the compiled form of `pattern`; the only way to make a
/// `Pattern` is `Pattern::new`, which compiles `source` into `compiled`.
#[verifier::external_body]
fn pattern_finds(pattern: &Pattern, haystack: &str) -> (out: bool)
    ensures
        out == regex_finds(pattern.source@, haystack@),
{
    pattern.compiled.is_match(haystack)
}

impl Pattern {
    /// The text of the regular expression.
    pub closed spec fn source(&self) -> Seq<char> {
        self.source@
    }

    /// Compiles `source`; `None` when the regex crate refuses it.
    pub fn new(source: &str) -> (out: Option<Pattern>)
        ensures
            out is Some <==> regex_compiles(source@),
            out matches Some(p) ==> p.source() == source@,
    {
        match compile_regex(source) {
            Some(compiled) => Some(Pattern { source: source.to_string(), compiled }),
            None => None,
        }
    }

    /// Whether the expression matches somewhere in `haystack`.
    pub fn is_match(&self, haystack: &str) -> (out: bool)
        ensures
            out == regex_finds(self.source(), haystack@),
    {
        pattern_finds(self, haystack)
    }
}

/// The names that tunnels may ask for.
pub open spec fn desired_name_pattern() -> Seq<char> {
    "^[a-z0-9-]+$"@
}

/// An IPv4 address and a port.
pub open spec fn ip_port_pattern() -> Seq<char> {
    "^(?:[0-9]{1,3}\\.){3}[0-9]{1,3}:[0-9]{1,5}$"@
}

/// A hostname and a port.
pub open spec fn hostname_port_pattern() -> Seq<char> {
    "^[a-z0-9-.]+:[0-9]{1,5}$"@
}

/// The error about a tunnel's server address.
pub open spec fn server_address_error() -> Seq<char> {
    "Tunnel: Server address must be in the format '<ip>:<port>' or '<hostname>:<port>'."@
}

/// A character that a hostname may hold: a lowercase letter, a digit, a hyphen or a period.
pub open spec fn is_host_char(c: char) -> bool {
    ('a' <= c && c <= 'z') || ('0' <= c && c <= '9') || c == '-' || c == '.'
}

/// A decimal digit.
pub open spec fn is_port_digit(c: char) -> bool {
    '0' <= c && c <= '9'
}

/// The form that the hostname pattern describes: one or more hostname characters, a ':', and
/// one to five digits.
pub open spec fn hostname_port_form(s: Seq<char>) -> bool {
    exists|k: int|
        0 < k < s.len() && #[trigger] s[k] == ':' && 1 <= s.len() - k - 1 <= 5 && (forall|j: int|
            0 <= j < k ==> is_host_char(#[trigger] s[j])) && (forall|j: int|
            k < j < s.len() ==> is_port_digit(#[trigger] s[j]))
}

/// Whether a tunnel's server address is acceptable: not empty, and an IPv4 address or a
/// hostname followed by a port, as the two patterns find it or in the hostname-and-port form.
pub open spec fn server_address_ok(address: Seq<char>) -> bool {
    address.len() > 0 && (regex_finds(ip_port_pattern(), address) || regex_finds(
        hostname_port_pattern(),
        address,
    ) || hostname_port_form(address))
}

fn host_char(c: char) -> (out: bool)
    ensures
        out == is_host_char(c),
{
    (c >= 'a' && c <= 'z') || (c >= '0' && c <= '9') || c == '-' || c == '.'
}

fn port_digit(c: char) -> (out: bool)
    ensures
        out == is_port_digit(c),
{
    c >= '0' && c <= '9'
}

/// Whether `s` has the hostname-and-port form.
pub fn is_hostname_port(s: &str) -> (out: bool)
    ensures
        out == hostname_port_form(s@),
{
    let chars = chars_of(s);
    let mut i: usize = 0;
    while i < chars.len() && host_char(chars[i])
        invariant
            i <= chars@.len(),
            forall|j: int| 0 <= j < i ==> is_host_char(#[trigger] chars@[j]),
        decreases chars.len() - i,
    {
        i = i + 1;
    }
    proof {
        if hostname_port_form(chars@) {
            let k = choose|k: int|
                0 < k < chars@.len() && #[trigger] chars@[k] == ':' && 1 <= chars@.len() - k - 1 <= 5
                    && (forall|j: int| 0 <= j < k ==> is_host_char(#[trigger] chars@[j])) && (forall|
                    j: int,
                | k < j < chars@.len() ==> is_port_digit(#[trigger] chars@[j]));
            assert(!is_host_char(chars@[k]));
            if i < k {
                assert(is_host_char(chars@[i as int]));
            }
            assert(i == k);
        }
    }
    if i == 0 || i >= chars.len() || chars[i] != ':' {
        return false;
    }
    let digits = chars.len() - i - 1;
    if digits == 0 || digits > 5 {
        return false;
    }
    let mut j: usize = i + 1;
    while j < chars.len() && port_digit(chars[j])
        invariant
            i + 1 <= j <= chars@.len(),
            forall|m: int| i < m < j ==> is_port_digit(#[trigger] chars@[m]),
        decreases chars.len() - j,
    {
        j = j + 1;
    }
    proof {
        if j == chars.len() {
            assert(chars@[i as int] == ':');
        }
    }
    j == chars.len()
}

/// The errors of a configuration: one about the server address of its tunnel part when that
/// address is not acceptable, none otherwise.
pub open spec fn configuration_errors(config: Configuration) -> Seq<Seq<char>> {
    match config.tunnel {
        Some(tunnel) => if server_address_ok(tunnel.hub_server_address@) {
            Seq::empty()
        } else {
            seq![server_address_error()]
        },
        None => Seq::empty(),
    }
}

/// A tunnel's server address made of lowercase letters, digits, hyphens and periods (at least
/// one), then ':' and one to five digits, is accepted: the configuration has no error, so
/// `validate_configuration` gives `Ok` whenever its patterns compile.
pub proof fn law_hostname_and_port_address_accepted(config: Configuration)
    requires
        config.tunnel matches Some(tunnel) && {
            let a = tunnel.hub_server_address@;
            exists|k: int|
                0 < k < a.len() && #[trigger] a[k] == ':' && 1 <= a.len() - k - 1 <= 5 && (forall|
                    j: int,
                |
                    0 <= j < k ==> ('a' <= #[trigger] a[j] && a[j] <= 'z') || ('0' <= a[j] && a[j]
                        <= '9') || a[j] == '-' || a[j] == '.') && (forall|j: int|
                    k < j < a.len() ==> '0' <= #[trigger] a[j] && a[j] <= '9')
        },
    ensures
        configuration_errors(config).len() == 0,
{
    let a = config.tunnel->Some_0.hub_server_address@;
    let k = choose|k: int|
        0 < k < a.len() && #[trigger] a[k] == ':' && 1 <= a.len() - k - 1 <= 5 && (forall|j: int|
            0 <= j < k ==> ('a' <= #[trigger] a[j] && a[j] <= 'z') || ('0' <= a[j] && a[j] <= '9')
                || a[j] == '-' || a[j] == '.') && (forall|j: int|
            k < j < a.len() ==> '0' <= #[trigger] a[j] && a[j] <= '9');
    assert(forall|j: int| 0 <= j < k ==> is_host_char(#[trigger] a[j]));
    assert(forall|j: int| k < j < a.len() ==> is_port_digit(#[trigger] a[j]));
    assert(hostname_port_form(a));
}

/// Checks a configuration with the compiled address patterns: `Ok` when it has no errors, else
/// its errors.
pub fn check_configuration(config: &Configuration, ip_port: &Pattern, hostname_port: &Pattern) -> (out:
    Result<(), Vec<String>>)
    requires
        ip_port.source() == ip_port_pattern(),
        hostname_port.source() == hostname_port_pattern(),
    ensures
        configuration_errors(*config).len() == 0 ==> out is Ok,
        configuration_errors(*config).len() > 0 ==> (out matches Err(errors) && errors@.map_values(
            |e: String| e@,
        ) == configuration_errors(*config)),
{
    let mut results: Vec<String> = Vec::new();
    if let Some(tunnel) = &config.tunnel {
        let address = tunnel.hub_server_address.as_str();
        if address.unicode_len() == 0 || (!ip_port.is_match(address) && !hostname_port.is_match(
            address,
        ) && !is_hostname_port(address)) {
            results.push(
                "Tunnel: Server address must be in the format '<ip>:<port>' or '<hostname>:<port>'.".to_string(),
            );
        }
    }
    if results.len() == 0 {
        return Ok(());
    }
    proof {
        assert(results@.map_values(|e: String| e@) =~= configuration_errors(*config));
    }
    Err(results)
}

/// Validates a configuration; `None` when the regex crate refuses one of the patterns that
/// the checks are written in, else what `check_configuration` gives.
pub fn validate_configuration(config: &Configuration) -> (out: Option<Result<(), Vec<String>>>)
    ensures
        out is None <==> !(regex_compiles(desired_name_pattern()) && regex_compiles(
            ip_port_pattern(),
        ) && regex_compiles(hostname_port_pattern())),
        out matches Some(result) ==> (configuration_errors(*config).len() == 0 ==> result is Ok),
        out matches Some(result) ==> (configuration_errors(*config).len() > 0 ==> (result matches Err(
            errors,
        ) && errors@.map_values(|e: String| e@) == configuration_errors(*config))),
{
    let desired_name = Pattern::new("^[a-z0-9-]+$");
    let ip_port = Pattern::new("^(?:[0-9]{1,3}\\.){3}[0-9]{1,3}:[0-9]{1,5}$");
    let hostname_port = Pattern::new("^[a-z0-9-.]+:[0-9]{1,5}$");
    match (desired_name, ip_port, hostname_port) {
        (Some(_), Some(ip_port), Some(hostname_port)) => Some(
            check_configuration(config, &ip_port, &hostname_port),
        ),
        _ => None,
    }
}

/// What serde_json reads from `bytes`: `None` when they are not JSON; else the entries of the
/// top-level object in the order serde_json keeps them (by key), each as its key and whether
/// its value is null, and no entries when the value is not an object.
pub uninterp spec fn json_object_entries(bytes: Seq<u8>) -> Option<Seq<(Seq<char>, bool)>>;

/// The view of entries read from a JSON object.
pub open spec fn entries_view(entries: Seq<(String, bool)>) -> Seq<(Seq<char>, bool)> {
    entries.map_values(|e: (String, bool)| (e.0@, e.1))
}

/// `serde_json::from_slice` into a `Value`, with the entries of a top-level object listed as
/// their keys and whether their values are null.
#[verifier::external_body]
fn read_json_entries(bytes: &[u8]) -> (out: Option<Vec<(String, bool)>>)
    ensures
        match out {
            Some(entries) => json_object_entries(bytes@) == Some(entries_view(entries@)),
            None => json_object_entries(bytes@) is None,
        },
{
    let value: serde_json::Value = serde_json::from_slice(bytes).ok()?;
    match value.as_object() {
        Some(object) => Some(object.iter().map(|(key, value)| (key.clone(), value.is_null())).collect()),
        None => Some(Vec::new()),
    }
}

/// Whether one of the first two entries sets `key` to something other than null.
pub open spec fn sets_key(entries: Seq<(Seq<char>, bool)>, key: Seq<char>) -> bool {
    exists|i: int| 0 <= i < entries.len() && i < 2 && #[trigger] entries[i].0 == key && !entries[i].1
}

/// Whether a configuration file with these entries is for a server only: among its first two
/// entries "server" is set and "tunnel" is not.
pub open spec fn is_server_only(entries: Seq<(Seq<char>, bool)>) -> bool {
    sets_key(entries, "server"@) && !sets_key(entries, "tunnel"@)
}

/// The command run when none is given, for a configuration file with these entries: the
/// server when the file is for a server only, else the tunnel.
pub fn default_command_for(entries: &Vec<(String, bool)>, verbose: bool) -> (out: Commands)
    ensures
        is_server_only(entries_view(entries@)) ==> out == (Commands::Server { config: None }),
        !is_server_only(entries_view(entries@)) ==> out == (Commands::Tunnel {
            config: None,
            verbose,
        }),
{
    let ghost view = entries_view(entries@);
    let server = "server".to_string();
    let tunnel = "tunnel".to_string();
    let mut server_key_set = false;
    let mut tunnel_key_set = false;
    let mut i: usize = 0;
    while i < entries.len() && i < 2
        invariant
            i <= entries.len(),
            i <= 2,
            view == entries_view(entries@),
            server@ == "server"@,
            tunnel@ == "tunnel"@,
            server_key_set == (exists|j: int|
                0 <= j < i && #[trigger] view[j].0 == "server"@ && !view[j].1),
            tunnel_key_set == (exists|j: int|
                0 <= j < i && #[trigger] view[j].0 == "tunnel"@ && !view[j].1),
        decreases 2 - i,
    {
        let key = &entries[i].0;
        let is_null = entries[i].1;
        assert(view[i as int] == (key@, is_null));
        let ghost before_server = server_key_set;
        let ghost before_tunnel = tunnel_key_set;
        proof {
            assert(("server"@) != ("tunnel"@)) by {
                reveal_strlit("server");
                reveal_strlit("tunnel");
                assert(("server"@)[0] != ("tunnel"@)[0]);
            }
        }
        let is_server = *key == server;
        let is_tunnel = *key == tunnel;
        assert(is_server == (key@ == "server"@));
        assert(is_tunnel == (key@ == "tunnel"@));
        if is_server && !is_null {
            server_key_set = true;
        } else if is_tunnel && !is_null {
            tunnel_key_set = true;
        }
        proof {
            let next = i + 1;
            assert(server_key_set == (before_server || (view[i as int].0 == "server"@
                && !view[i as int].1)));
            assert(tunnel_key_set == (before_tunnel || (view[i as int].0 == "tunnel"@
                && !view[i as int].1)));
            if server_key_set {
                if !before_server {
                    assert(0 <= i < next && view[i as int].0 == "server"@ && !view[i as int].1);
                }
            } else {
                assert forall|j: int| 0 <= j < next implies !(#[trigger] view[j].0 == "server"@
                    && !view[j].1) by {
                    if j < i {
                    } else {
                        assert(j == i);
                    }
                }
            }
            if tunnel_key_set {
                if !before_tunnel {
                    assert(0 <= i < next && view[i as int].0 == "tunnel"@ && !view[i as int].1);
                }
            } else {
                assert forall|j: int| 0 <= j < next implies !(#[trigger] view[j].0 == "tunnel"@
                    && !view[j].1) by {
                    if j < i {
                    } else {
                        assert(j == i);
                    }
                }
            }
        }
        i = i + 1;
    }
    if server_key_set && !tunnel_key_set {
        Commands::Server { config: None }
    } else {
        Commands::Tunnel { config: None, verbose }
    }
}

/// The command run when none is given: the tunnel, unless the configuration file (`None` when
/// it could not be read) is JSON whose first two entries make it a server only configuration.
pub fn get_default_command(config_file: Option<Vec<u8>>, verbose: bool) -> (out: Commands)
    ensures
        out == (match config_file {
            Some(bytes) => match json_object_entries(bytes@) {
                Some(entries) => if is_server_only(entries) {
                    Commands::Server { config: None }
                } else {
                    Commands::Tunnel { config: None, verbose }
                },
                None => Commands::Tunnel { config: None, verbose },
            },
            None => Commands::Tunnel { config: None, verbose },
        }),
{
    match config_file {
        Some(bytes) => match read_json_entries(bytes.as_slice()) {
            Some(entries) => default_command_for(&entries, verbose),
            None => Commands::Tunnel { config: None, verbose },
        },
        None => Commands::Tunnel { config: None, verbose },
    }
}

/// The name of the configuration file.
pub open spec fn configuration_file_name() -> Seq<char> {
    "tunnelize.json"@
}

/// The whole configuration file: the server part, the tunnel part, or both.
pub struct TunnelizeConfiguration {
    pub server: Option<ServerConfiguration>,
    pub tunnel: Option<TunnelConfiguration>,
}

/// A configuration with an optional server part and an optional tunnel part.
pub struct Configuration {
    pub server: Option<ServerConfiguration>,
    pub tunnel: Option<TunnelConfiguration>,
}

/// What the server runs: its hub and its services by name.
pub struct ServerConfiguration {
    pub hub: HubConfiguration,
    pub services: Vec<(String, ServiceDefinition)>,
}

/// One service of the server.
#[derive(Debug)]
pub enum ServiceDefinition {
    Http(HttpServerConfig),
    Tcp { port_range: (u16, u16) },
    Udp { port_range: (u16, u16) },
    MonitoringApi { port: u16 },
}

impl Clone for ServiceDefinition {
    fn clone(&self) -> (out: Self)
        ensures
            out == *self,
    {
        match self {
            ServiceDefinition::Http(config) => ServiceDefinition::Http(config.clone()),
            ServiceDefinition::Tcp { port_range } => ServiceDefinition::Tcp {
                port_range: (port_range.0, port_range.1),
            },
            ServiceDefinition::Udp { port_range } => ServiceDefinition::Udp {
                port_range: (port_range.0, port_range.1),
            },
            ServiceDefinition::MonitoringApi { port } => ServiceDefinition::MonitoringApi {
                port: *port,
            },
        }
    }
}

/// What the tunnel side runs: the hub to connect to and the tunnels to open.
pub struct TunnelConfiguration {
    pub hub_server_address: String,
    pub tunnels: Vec<TunnelDefinition>,
}

/// One tunnel, with the server service it connects to.
pub struct TunnelDefinition {
    pub server_service: String,
    pub tunnel: TunnelType,
}

/// The kinds of tunnel.
pub enum TunnelType {
    Http(HttpTunnelConfig),
}

/// No service name occurs twice, as in a map by name.
pub open spec fn unique_service_names(services: Seq<(String, ServiceDefinition)>) -> bool {
    forall|i: int, j: int|
        0 <= i < services.len() && 0 <= j < services.len() && i != j ==> #[trigger] services[i].0@
            != #[trigger] services[j].0@
}

/// The path of the configuration file.
pub fn get_configuration_path() -> (out: String)
    ensures
        out@ == configuration_file_name(),
{
    "tunnelize.json".to_string()
}

/// The server configuration written by default: the hub on port 3456 and one HTTP service
/// named "http" with default settings.
pub fn get_default_server_config() -> (out: ServerConfiguration)
    ensures
        out.hub == (HubConfiguration { server_port: 3456, max_tunnel_input_wait: 10 }),
        out.services@.len() == 1,
        out.services@[0].0@ == "http"@,
        out.services@[0].1 matches ServiceDefinition::Http(c) && is_default_server_config(c),
        unique_service_names(out.services@),
{
    let mut services: Vec<(String, ServiceDefinition)> = Vec::new();
    services.push(("http".to_string(), ServiceDefinition::Http(HttpServerConfig::default())));
    ServerConfiguration {
        hub: HubConfiguration { server_port: 3456, max_tunnel_input_wait: 10 },
        services,
    }
}

/// The tunnel configuration written by default: the hub at "0.0.0.0:3456" and one HTTP tunnel
/// with default settings for the service "http".
pub fn get_default_tunnel_config() -> (out: TunnelConfiguration)
    ensures
        out.hub_server_address@ == "0.0.0.0:3456"@,
        out.tunnels@.len() == 1,
        out.tunnels@[0].server_service@ == "http"@,
        out.tunnels@[0].tunnel matches TunnelType::Http(c) && is_default_tunnel_config(c),
{
    let mut tunnels: Vec<TunnelDefinition> = Vec::new();
    tunnels.push(
        TunnelDefinition {
            server_service: "http".to_string(),
            tunnel: TunnelType::Http(HttpTunnelConfig::default()),
        },
    );
    TunnelConfiguration { hub_server_address: "0.0.0.0:3456".to_string(), tunnels }
}

} // verus!
