use vstd::prelude::*;

use crate::common::address::host_port_text;
use crate::common::strings::{
    chars_of, decimal, lemma_decimal_digits, lemma_find_char_is, parse_u16, parse_u16_text,
    replace, replace_all, seq_starts_with, split_once, split_once_at, starts_with, string_of,
};
use crate::common::tcp_client::ClientEncryption;

verus! {

/// The port of a server address that names none, or one that is not a number.
pub const DEFAULT_SERVER_PORT: u16 = 3456;

/// A server address without its "http://" or "https://" scheme: when it begins with either,
/// every occurrence of "http://" and then of "https://" is taken out.
pub open spec fn without_scheme(address: Seq<char>) -> Seq<char> {
    if seq_starts_with(address, "http://"@) || seq_starts_with(address, "https://"@) {
        replace_all(replace_all(address, "http://"@, Seq::empty()), "https://"@, Seq::empty())
    } else {
        address
    }
}

/// The host and port that a server address names: what comes before its first ':' and the
/// number after it, `DEFAULT_SERVER_PORT` when there is no ':' or no number after it.
pub open spec fn server_address_parts(address: Seq<char>) -> (Seq<char>, u16) {
    let plain = without_scheme(address);
    match split_once(plain, ':') {
        Some((host, port)) => (
            host,
            match parse_u16(port) {
                Some(n) => n,
                None => DEFAULT_SERVER_PORT,
            },
        ),
        None => (plain, DEFAULT_SERVER_PORT),
    }
}

/// An address written as "host:port", the form servers are bound with, reads back as that host
/// and port, for any host without a ':'.
pub proof fn law_host_port_reads_back(host: Seq<char>, port: u16)
    requires
        forall|i: int| 0 <= i < host.len() ==> host[i] != ':',
    ensures
        server_address_parts(host_port_text(host, port)) == (host, port),
{
    let digits = decimal(port as nat);
    let text = host_port_text(host, port);
    lemma_decimal_digits(port as nat);
    reveal_strlit(":");
    assert(text.len() == host.len() + 1 + digits.len());
    assert(text[host.len() as int] == ':');
    assert forall|i: int| 0 <= i < host.len() implies text[i] == host[i] by {}
    assert forall|i: int| 0 <= i < digits.len() implies text[host.len() + 1 + i] == digits[i] by {}
    assert(crate::common::strings::is_digit(digits[0]));
    reveal_strlit("http://");
    reveal_strlit("https://");
    if seq_starts_with(text, "http://"@) {
        let scheme = "http://"@;
        assert(text.take(7) == scheme);
        if host.len() >= 5 {
            assert(text[4] == scheme[4]);
        } else if host.len() == 4 {
            assert(text[5] == scheme[5]);
        } else {
            assert(text[host.len() as int] == scheme[host.len() as int]);
        }
    }
    if seq_starts_with(text, "https://"@) {
        let scheme = "https://"@;
        assert(text.take(8) == scheme);
        if host.len() >= 6 {
            assert(text[5] == scheme[5]);
        } else if host.len() == 5 {
            assert(text[6] == scheme[6]);
        } else {
            assert(text[host.len() as int] == scheme[host.len() as int]);
        }
    }
    assert(without_scheme(text) == text);
    lemma_find_char_is(text, ':', host.len() as int);
    assert(text.take(host.len() as int) =~= host);
    assert(text.skip(host.len() as int + 1) =~= digits);
    assert(crate::common::strings::unsigned_digits(digits) == digits);
}

/// The host and port of the server that a tunnel configuration is fetched from.
pub fn split_server_address(server: &String) -> (out: (String, u16))
    ensures
        (out.0@, out.1) == server_address_parts(server@),
{
    let address = chars_of(server.as_str());
    let http = chars_of("http://");
    let https = chars_of("https://");
    proof {
        reveal_strlit("http://");
        reveal_strlit("https://");
    }
    let empty: Vec<char> = Vec::new();
    let plain = if starts_with(&address, &http) || starts_with(&address, &https) {
        let once = replace(&address, &http, &empty);
        replace(&once, &https, &empty)
    } else {
        address
    };
    assert(plain@ == without_scheme(server@));
    match split_once_at(&plain, ':') {
        Some((host, port)) => {
            let number = match parse_u16_text(&port) {
                Some(n) => n,
                None => DEFAULT_SERVER_PORT,
            };
            (string_of(host.as_slice()), number)
        },
        None => (string_of(plain.as_slice()), DEFAULT_SERVER_PORT),
    }
}

/// The encryption asked for on the command line: TLS, with the given CA file, when `tls` is
/// set; none otherwise.
pub fn requested_encryption(tls: bool, ca_path: Option<String>) -> (out: Option<ClientEncryption>)
    ensures
        tls ==> out == Some(ClientEncryption::Tls { ca_path }),
        !tls ==> out is None,
{
    if tls {
        Some(ClientEncryption::Tls { ca_path })
    } else {
        None
    }
}

/// What a server tells of one of its public endpoints, as far as a tunnel is set up from it.
#[derive(Clone, Copy, Debug, PartialEq, Eq)]
pub enum PublicEndpoint {
    Http { allow_custom_hostnames: bool },
    Tcp { allow_desired_port: bool, reserve_ports_from: u16 },
    Udp { allow_desired_port: bool, reserve_ports_from: u16 },
    Monitoring,
}

/// What a tunnel asks of the endpoint that one of its proxies goes through.
#[derive(Clone, Debug, PartialEq)]
pub enum ProxyConfiguration {
    Http { desired_name: Option<String> },
    Tcp { desired_port: Option<u16> },
    Udp { desired_port: Option<u16>, bind_address: Option<String> },
}

/// One local service that a tunnel forwards through a server endpoint.
#[derive(Clone, Debug, PartialEq)]
pub struct ProvisionedProxy {
    pub address: String,
    pub endpoint_name: String,
    pub port: u16,
    pub endpoint_config: ProxyConfiguration,
}

/// A tunnel configuration set up from what a server offers.
#[derive(Clone, Debug, PartialEq)]
pub struct ProvisionedTunnel {
    pub name: Option<String>,
    pub server_address: String,
    pub server_port: Option<u16>,
    pub forward_connection_timeout_seconds: Option<u64>,
    pub encryption: Option<ClientEncryption>,
    pub tunnel_key: Option<String>,
    pub monitor_key: Option<String>,
    pub proxies: Vec<ProvisionedProxy>,
}

/// The endpoints that get a proxy: all but the monitoring ones, in the order given.
pub open spec fn served_endpoints(endpoints: Seq<(String, PublicEndpoint)>) -> Seq<(String, PublicEndpoint)>
    decreases endpoints.len(),
{
    if endpoints.len() == 0 {
        Seq::empty()
    } else {
        let before = served_endpoints(endpoints.drop_last());
        if endpoints.last().1 is Monitoring {
            before
        } else {
            before.push(endpoints.last())
        }
    }
}

/// The local port of the proxy at position `k`: 8080 for the first, one more for each next,
/// wrapping round at the end of the `u16` range.
pub open spec fn proxy_port(k: int) -> u16 {
    ((8080 + k) % 65536) as u16
}

/// What a proxy asks of `endpoint`: the name "custom-name" where the endpoint lets tunnels
/// choose their host name, the first reserved port where it lets them choose a port, and
/// nothing else.
pub open spec fn asks_of(config: ProxyConfiguration, endpoint: PublicEndpoint) -> bool {
    match endpoint {
        PublicEndpoint::Http { allow_custom_hostnames } => match config {
            ProxyConfiguration::Http { desired_name } => if allow_custom_hostnames {
                desired_name is Some && desired_name->0@ == "custom-name"@
            } else {
                desired_name is None
            },
            _ => false,
        },
        PublicEndpoint::Tcp { allow_desired_port, reserve_ports_from } => config
            == ProxyConfiguration::Tcp {
            desired_port: if allow_desired_port {
                Some(reserve_ports_from)
            } else {
                None
            },
        },
        PublicEndpoint::Udp { allow_desired_port, reserve_ports_from } => match config {
            ProxyConfiguration::Udp { desired_port, bind_address } => {
                &&& desired_port == if allow_desired_port {
                    Some(reserve_ports_from)
                } else {
                    None
                }
                &&& bind_address is None
            },
            _ => false,
        },
        PublicEndpoint::Monitoring => false,
    }
}

/// The proxy at position `k` forwards "localhost", on its port, through the named endpoint.
pub open spec fn proxy_for(proxy: ProvisionedProxy, entry: (String, PublicEndpoint), k: int) -> bool {
    &&& proxy.address@ == "localhost"@
    &&& proxy.endpoint_name@ == entry.0@
    &&& proxy.port == proxy_port(k)
    &&& asks_of(proxy.endpoint_config, entry.1)
}

proof fn lemma_next_port(k: int)
    requires
        k >= 0,
    ensures
        vstd::wrapping::u16_specs::wrapping_add(proxy_port(k), 1) == proxy_port(k + 1),
{
    let p = (8080 + k) % 65536;
    assert(0 <= p < 65536);
    assert((8080 + k + 1) % 65536 == if p + 1 == 65536 { 0 } else { p + 1 }) by {
        vstd::arithmetic::div_mod::lemma_add_mod_noop(8080 + k, 1, 65536);
        vstd::arithmetic::div_mod::lemma_small_mod(1, 65536);
    }
}

/// What a proxy of a new tunnel asks of `endpoint`; `None` for a monitoring endpoint, which
/// gets no proxy.
fn proxy_configuration(endpoint: PublicEndpoint) -> (out: Option<ProxyConfiguration>)
    ensures
        endpoint is Monitoring <==> out is None,
        out matches Some(config) ==> asks_of(config, endpoint),
{
    proof {
        reveal_strlit("custom-name");
    }
    match endpoint {
        PublicEndpoint::Http { allow_custom_hostnames } => Some(
            ProxyConfiguration::Http {
                desired_name: if allow_custom_hostnames {
                    Some("custom-name".to_string())
                } else {
                    None
                },
            },
        ),
        PublicEndpoint::Tcp { allow_desired_port, reserve_ports_from } => Some(
            ProxyConfiguration::Tcp {
                desired_port: if allow_desired_port {
                    Some(reserve_ports_from)
                } else {
                    None
                },
            },
        ),
        PublicEndpoint::Udp { allow_desired_port, reserve_ports_from } => Some(
            ProxyConfiguration::Udp {
                desired_port: if allow_desired_port {
                    Some(reserve_ports_from)
                } else {
                    None
                },
                bind_address: None,
            },
        ),
        PublicEndpoint::Monitoring => None,
    }
}

/// The tunnel configuration written for a server at `address` that offers `endpoints`: named
/// "my-tunnel", with the key and encryption it was fetched with, and one proxy of "localhost"
/// for each endpoint but the monitoring ones, in order, on ports 8080, 8081 and so on.
pub fn provisioned_tunnel(
    address: String,
    key: Option<String>,
    encryption: Option<ClientEncryption>,
    endpoints: Vec<(String, PublicEndpoint)>,
) -> (out: ProvisionedTunnel)
    ensures
        out.name is Some && out.name->0@ == "my-tunnel"@,
        out.server_address == address,
        out.server_port is None,
        out.forward_connection_timeout_seconds is None,
        out.encryption == Some(
            match encryption {
                Some(e) => e,
                None => ClientEncryption::Unencrypted,
            },
        ),
        out.tunnel_key == key,
        out.monitor_key is None,
        out.proxies@.len() == served_endpoints(endpoints@).len(),
        forall|k: int|
            0 <= k < out.proxies@.len() ==> #[trigger] proxy_for(
                out.proxies@[k],
                served_endpoints(endpoints@)[k],
                k,
            ),
{
    proof {
        reveal_strlit("my-tunnel");
        reveal_strlit("localhost");
    }
    let mut proxies: Vec<ProvisionedProxy> = Vec::new();
    let mut port: u16 = 8080;
    let mut i: usize = 0;
    while i < endpoints.len()
        invariant
            i <= endpoints@.len(),
            proxies@.len() == served_endpoints(endpoints@.take(i as int)).len(),
            port == proxy_port(proxies@.len() as int),
            forall|k: int|
                0 <= k < proxies@.len() ==> #[trigger] proxy_for(
                    proxies@[k],
                    served_endpoints(endpoints@.take(i as int))[k],
                    k,
                ),
        decreases endpoints@.len() - i,
    {
        let ghost before = endpoints@.take(i as int);
        assert(endpoints@.take(i as int + 1).drop_last() == before);
        assert(endpoints@.take(i as int + 1).last() == endpoints@[i as int]);
        let entry = &endpoints[i];
        match proxy_configuration(entry.1) {
            Some(endpoint_config) => {
                let proxy = ProvisionedProxy {
                    address: "localhost".to_string(),
                    endpoint_name: entry.0.clone(),
                    port,
                    endpoint_config,
                };
                proof {
                    lemma_next_port(proxies@.len() as int);
                }
                proxies.push(proxy);
                port = port.wrapping_add(1);
            },
            None => {},
        }
        i = i + 1;
    }
    assert(endpoints@.take(endpoints@.len() as int) == endpoints@);
    ProvisionedTunnel {
        name: Some("my-tunnel".to_string()),
        server_address: address,
        server_port: None,
        forward_connection_timeout_seconds: None,
        encryption: Some(ClientEncryption::from(encryption)),
        tunnel_key: key,
        monitor_key: None,
        proxies,
    }
}

/// The HTTP, TCP and UDP proxies of the default tunnel configuration.
pub open spec fn default_proxy(proxy: ProvisionedProxy, k: int) -> bool {
    &&& proxy.address@ == "localhost"@
    &&& proxy.port == 8080 + k
    &&& if k == 0 {
        &&& proxy.endpoint_name@ == "http"@
        &&& proxy.endpoint_config matches ProxyConfiguration::Http { desired_name }
        &&& desired_name is Some && desired_name->0@ == "myname"@
    } else if k == 1 {
        &&& proxy.endpoint_name@ == "tcp"@
        &&& proxy.endpoint_config == ProxyConfiguration::Tcp { desired_port: None }
    } else {
        &&& proxy.endpoint_name@ == "udp"@
        &&& proxy.endpoint_config == ProxyConfiguration::Udp { desired_port: None, bind_address: None }
    }
}

/// The tunnel configuration written when no server is given: "my-tunnel" on a server at
/// "localhost", with the monitor key "changethismonitorkey", forwarding "localhost" ports 8080
/// (HTTP, asking for the name "myname"), 8081 (TCP) and 8082 (UDP).
pub fn get_default_tunnel_configuration() -> (out: ProvisionedTunnel)
    ensures
        out.name is Some && out.name->0@ == "my-tunnel"@,
        out.server_address@ == "localhost"@,
        out.server_port is None,
        out.forward_connection_timeout_seconds is None,
        out.encryption is None,
        out.tunnel_key is None,
        out.monitor_key is Some && out.monitor_key->0@ == "changethismonitorkey"@,
        out.proxies@.len() == 3,
        forall|k: int| 0 <= k < 3 ==> #[trigger] default_proxy(out.proxies@[k], k),
{
    let mut proxies: Vec<ProvisionedProxy> = Vec::new();
    proxies.push(
        ProvisionedProxy {
            address: "localhost".to_string(),
            endpoint_name: "http".to_string(),
            port: 8080,
            endpoint_config: ProxyConfiguration::Http { desired_name: Some("myname".to_string()) },
        },
    );
    proxies.push(
        ProvisionedProxy {
            address: "localhost".to_string(),
            endpoint_name: "tcp".to_string(),
            port: 8081,
            endpoint_config: ProxyConfiguration::Tcp { desired_port: None },
        },
    );
    proxies.push(
        ProvisionedProxy {
            address: "localhost".to_string(),
            endpoint_name: "udp".to_string(),
            port: 8082,
            endpoint_config: ProxyConfiguration::Udp { desired_port: None, bind_address: None },
        },
    );
    ProvisionedTunnel {
        name: Some("my-tunnel".to_string()),
        server_address: "localhost".to_string(),
        server_port: None,
        forward_connection_timeout_seconds: None,
        encryption: None,
        tunnel_key: None,
        monitor_key: Some("changethismonitorkey".to_string()),
        proxies,
    }
}

/// How a server endpoint encrypts the connections it accepts.
#[derive(Clone, Debug, PartialEq)]
pub enum ServerEncryption {
    Tls { cert_path: String, key_path: String },
    Unencrypted,
}

/// How the monitoring endpoint checks who calls it.
#[derive(Clone, Debug, PartialEq)]
pub enum MonitorAuthentication {
    Basic { username: String, password: String },
}

/// An endpoint that serves HTTP tunnels by hostname.
#[derive(Clone, Debug, PartialEq)]
pub struct HttpEndpointConfig {
    pub port: u16,
    pub encryption: Option<ServerEncryption>,
    pub address: Option<String>,
    pub max_client_input_wait_secs: Option<u64>,
    pub hostname_template: String,
    pub full_url_template: Option<String>,
    pub allow_custom_hostnames: Option<bool>,
    pub require_authorization: Option<bool>,
}

/// The monitoring endpoint.
#[derive(Clone, Debug, PartialEq)]
pub struct MonitorEndpointConfig {
    pub encryption: Option<ServerEncryption>,
    pub port: u16,
    pub address: Option<String>,
    pub allow_cors_origins: Option<Vec<String>>,
    pub authentication: MonitorAuthentication,
}

/// An endpoint that serves TCP tunnels on a range of ports.
#[derive(Clone, Debug, PartialEq)]
pub struct TcpEndpointConfig {
    pub reserve_ports_from: u16,
    pub reserve_ports_to: u16,
    pub allow_desired_port: Option<bool>,
    pub encryption: Option<ServerEncryption>,
    pub full_hostname_template: Option<String>,
    pub address: Option<String>,
}

/// An endpoint that serves UDP tunnels on a range of ports.
#[derive(Clone, Debug, PartialEq)]
pub struct UdpEndpointConfig {
    pub reserve_ports_from: u16,
    pub reserve_ports_to: u16,
    pub allow_desired_port: Option<bool>,
    pub inactivity_timeout: Option<u64>,
    pub full_hostname_template: Option<String>,
    pub address: Option<String>,
}

/// One endpoint of a server.
#[derive(Clone, Debug, PartialEq)]
pub enum EndpointConfiguration {
    Http(HttpEndpointConfig),
    Monitoring(MonitorEndpointConfig),
    Tcp(TcpEndpointConfig),
    Udp(UdpEndpointConfig),
}

/// A server configuration with its endpoints by name.
#[derive(Clone, Debug, PartialEq)]
pub struct ServerConfiguration {
    pub server_port: Option<u16>,
    pub server_address: Option<String>,
    pub monitor_key: Option<String>,
    pub max_tunnel_input_wait: Option<u64>,
    pub tunnel_key: Option<String>,
    pub endpoints: Vec<(String, EndpointConfiguration)>,
    pub max_tunnels: Option<usize>,
    pub max_clients: Option<usize>,
    pub max_proxies_per_tunnel: Option<usize>,
    pub encryption: Option<ServerEncryption>,
}

/// Whether `text` is `Some` and reads `expected`.
pub open spec fn holds_text(text: Option<String>, expected: Seq<char>) -> bool {
    text is Some && text->0@ == expected
}

/// The endpoint at position `k` of the default server configuration: "http" on port 3457 with
/// host names "tunnel-{name}.localhost", "monitor" on port 3000 behind the user "admin" with
/// password "changethispassword", "tcp" on ports 4000 to 4050 and "udp" on ports 5000 to 5050,
/// both reached as "localhost:{port}"; everything else unset.
pub open spec fn default_endpoint(entry: (String, EndpointConfiguration), k: int) -> bool {
    let (name, endpoint) = entry;
    if k == 0 {
        &&& name@ == "http"@
        &&& endpoint matches EndpointConfiguration::Http(http)
        &&& http.port == 3457
        &&& http.encryption is None
        &&& http.address is None
        &&& http.max_client_input_wait_secs is None
        &&& http.hostname_template@ == "tunnel-{name}.localhost"@
        &&& http.full_url_template is None
        &&& http.allow_custom_hostnames is None
        &&& http.require_authorization is None
    } else if k == 1 {
        &&& name@ == "monitor"@
        &&& endpoint matches EndpointConfiguration::Monitoring(monitor)
        &&& monitor.encryption is None
        &&& monitor.port == 3000
        &&& monitor.address is None
        &&& monitor.allow_cors_origins is None
        &&& monitor.authentication matches MonitorAuthentication::Basic { username, password }
        &&& username@ == "admin"@
        &&& password@ == "changethispassword"@
    } else if k == 2 {
        &&& name@ == "tcp"@
        &&& endpoint matches EndpointConfiguration::Tcp(tcp)
        &&& tcp.reserve_ports_from == 4000
        &&& tcp.reserve_ports_to == 4050
        &&& tcp.allow_desired_port is None
        &&& tcp.encryption is None
        &&& holds_text(tcp.full_hostname_template, "localhost:{port}"@)
        &&& tcp.address is None
    } else {
        &&& name@ == "udp"@
        &&& endpoint matches EndpointConfiguration::Udp(udp)
        &&& udp.reserve_ports_from == 5000
        &&& udp.reserve_ports_to == 5050
        &&& udp.allow_desired_port is None
        &&& udp.inactivity_timeout is None
        &&& holds_text(udp.full_hostname_template, "localhost:{port}"@)
        &&& udp.address is None
    }
}

/// The server configuration written by default: the monitor key "changethismonitorkey", the
/// four endpoints of `default_endpoint` in that order, and nothing else set.
pub fn get_default_server_configuration() -> (out: ServerConfiguration)
    ensures
        out.server_port is None,
        out.server_address is None,
        holds_text(out.monitor_key, "changethismonitorkey"@),
        out.max_tunnel_input_wait is None,
        out.tunnel_key is None,
        out.max_tunnels is None,
        out.max_clients is None,
        out.max_proxies_per_tunnel is None,
        out.encryption is None,
        out.endpoints@.len() == 4,
        forall|k: int| 0 <= k < 4 ==> #[trigger] default_endpoint(out.endpoints@[k], k),
{
    let mut endpoints: Vec<(String, EndpointConfiguration)> = Vec::new();
    endpoints.push(
        (
            "http".to_string(),
            EndpointConfiguration::Http(
                HttpEndpointConfig {
                    port: 3457,
                    encryption: None,
                    address: None,
                    max_client_input_wait_secs: None,
                    hostname_template: "tunnel-{name}.localhost".to_string(),
                    full_url_template: None,
                    allow_custom_hostnames: None,
                    require_authorization: None,
                },
            ),
        ),
    );
    endpoints.push(
        (
            "monitor".to_string(),
            EndpointConfiguration::Monitoring(
                MonitorEndpointConfig {
                    encryption: None,
                    port: 3000,
                    address: None,
                    allow_cors_origins: None,
                    authentication: MonitorAuthentication::Basic {
                        username: "admin".to_string(),
                        password: "changethispassword".to_string(),
                    },
                },
            ),
        ),
    );
    endpoints.push(
        (
            "tcp".to_string(),
            EndpointConfiguration::Tcp(
                TcpEndpointConfig {
                    reserve_ports_from: 4000,
                    reserve_ports_to: 4050,
                    allow_desired_port: None,
                    encryption: None,
                    full_hostname_template: Some("localhost:{port}".to_string()),
                    address: None,
                },
            ),
        ),
    );
    endpoints.push(
        (
            "udp".to_string(),
            EndpointConfiguration::Udp(
                UdpEndpointConfig {
                    reserve_ports_from: 5000,
                    reserve_ports_to: 5050,
                    allow_desired_port: None,
                    inactivity_timeout: None,
                    full_hostname_template: Some("localhost:{port}".to_string()),
                    address: None,
                },
            ),
        ),
    );
    ServerConfiguration {
        server_port: None,
        server_address: None,
        monitor_key: Some("changethismonitorkey".to_string()),
        max_tunnel_input_wait: None,
        tunnel_key: None,
        endpoints,
        max_tunnels: None,
        max_clients: None,
        max_proxies_per_tunnel: None,
        encryption: None,
    }
}

} // verus!
