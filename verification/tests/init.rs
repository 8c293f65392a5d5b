use tunnelize::common::address::host_port;
use tunnelize::common::tcp_client::ClientEncryption;
use tunnelize::init::{
    get_default_server_configuration, get_default_tunnel_configuration, provisioned_tunnel,
    requested_encryption, split_server_address, EndpointConfiguration, HttpEndpointConfig,
    MonitorAuthentication, MonitorEndpointConfig, ProvisionedProxy, ProxyConfiguration,
    PublicEndpoint, TcpEndpointConfig, UdpEndpointConfig, DEFAULT_SERVER_PORT,
};

fn split(address: &str) -> (String, u16) {
    split_server_address(&address.to_string())
}

#[test]
fn address_with_port() {
    assert_eq!(split("example.com:4000"), ("example.com".to_string(), 4000));
}

#[test]
fn address_without_port_uses_the_default() {
    assert_eq!(split("example.com"), ("example.com".to_string(), 3456));
    assert_eq!(DEFAULT_SERVER_PORT, 3456);
}

#[test]
fn scheme_is_taken_off() {
    assert_eq!(split("http://example.com:81"), ("example.com".to_string(), 81));
    assert_eq!(split("https://example.com"), ("example.com".to_string(), 3456));
}

#[test]
fn scheme_is_kept_when_the_address_does_not_start_with_it() {
    assert_eq!(split("proxy.http://x"), ("proxy.http".to_string(), 3456));
}

#[test]
fn unreadable_port_uses_the_default() {
    assert_eq!(split("host:abc"), ("host".to_string(), 3456));
    assert_eq!(split("host:70000"), ("host".to_string(), 3456));
    assert_eq!(split("host:"), ("host".to_string(), 3456));
    assert_eq!(split("host:-1"), ("host".to_string(), 3456));
}

#[test]
fn port_is_read_as_std_reads_it() {
    assert_eq!(split("host:+80"), ("host".to_string(), 80));
    assert_eq!(split("host:0080"), ("host".to_string(), 80));
    assert_eq!(split("host:65535"), ("host".to_string(), 65535));
    assert_eq!(split("host:1:2"), ("host".to_string(), 3456));
}

#[test]
fn encryption_follows_the_tls_flag() {
    assert_eq!(
        requested_encryption(true, Some("ca.pem".to_string())),
        Some(ClientEncryption::Tls { ca_path: Some("ca.pem".to_string()) })
    );
    assert_eq!(requested_encryption(false, Some("ca.pem".to_string())), None);
}

#[test]
fn host_and_port_read_back() {
    for (host, port) in [("example.com", 80u16), ("10.0.0.1", 0), ("h", 65535), ("", 3456)] {
        assert_eq!(split_server_address(&host_port(host, port)), (host.to_string(), port));
    }
}

fn proxy(name: &str, port: u16, endpoint_config: ProxyConfiguration) -> ProvisionedProxy {
    ProvisionedProxy {
        address: "localhost".to_string(),
        endpoint_name: name.to_string(),
        port,
        endpoint_config,
    }
}

#[test]
fn tunnel_is_provisioned_from_the_server_endpoints() {
    let endpoints = vec![
        ("http".to_string(), PublicEndpoint::Http { allow_custom_hostnames: true }),
        ("monitor".to_string(), PublicEndpoint::Monitoring),
        (
            "tcp".to_string(),
            PublicEndpoint::Tcp { allow_desired_port: true, reserve_ports_from: 4000 },
        ),
        (
            "udp".to_string(),
            PublicEndpoint::Udp { allow_desired_port: false, reserve_ports_from: 5000 },
        ),
    ];
    let tunnel = provisioned_tunnel(
        "example.com".to_string(),
        Some("key".to_string()),
        None,
        endpoints,
    );

    assert_eq!(tunnel.name, Some("my-tunnel".to_string()));
    assert_eq!(tunnel.server_address, "example.com");
    assert_eq!(tunnel.server_port, None);
    assert_eq!(tunnel.forward_connection_timeout_seconds, None);
    assert_eq!(tunnel.encryption, Some(ClientEncryption::Unencrypted));
    assert_eq!(tunnel.tunnel_key, Some("key".to_string()));
    assert_eq!(tunnel.monitor_key, None);
    assert_eq!(
        tunnel.proxies,
        vec![
            proxy(
                "http",
                8080,
                ProxyConfiguration::Http { desired_name: Some("custom-name".to_string()) }
            ),
            proxy("tcp", 8081, ProxyConfiguration::Tcp { desired_port: Some(4000) }),
            proxy(
                "udp",
                8082,
                ProxyConfiguration::Udp { desired_port: None, bind_address: None }
            ),
        ]
    );
}

#[test]
fn provisioned_tunnel_keeps_the_requested_encryption() {
    let encryption = ClientEncryption::Tls { ca_path: Some("ca.pem".to_string()) };
    let endpoints = vec![
        ("web".to_string(), PublicEndpoint::Http { allow_custom_hostnames: false }),
        (
            "game".to_string(),
            PublicEndpoint::Udp { allow_desired_port: true, reserve_ports_from: 7000 },
        ),
        (
            "db".to_string(),
            PublicEndpoint::Tcp { allow_desired_port: false, reserve_ports_from: 6000 },
        ),
    ];
    let tunnel = provisioned_tunnel("10.0.0.1".to_string(), None, Some(encryption.clone()), endpoints);

    assert_eq!(tunnel.encryption, Some(encryption));
    assert_eq!(tunnel.tunnel_key, None);
    assert_eq!(
        tunnel.proxies,
        vec![
            proxy("web", 8080, ProxyConfiguration::Http { desired_name: None }),
            proxy(
                "game",
                8081,
                ProxyConfiguration::Udp { desired_port: Some(7000), bind_address: None }
            ),
            proxy("db", 8082, ProxyConfiguration::Tcp { desired_port: None }),
        ]
    );
}

#[test]
fn provisioned_tunnel_without_endpoints_has_no_proxies() {
    let endpoints = vec![("monitor".to_string(), PublicEndpoint::Monitoring)];
    let tunnel = provisioned_tunnel("localhost".to_string(), None, None, endpoints);

    assert!(tunnel.proxies.is_empty());
}

#[test]
fn provisioned_proxy_ports_wrap_round() {
    let endpoints: Vec<(String, PublicEndpoint)> = (0..57458)
        .map(|i| (format!("e{}", i), PublicEndpoint::Tcp { allow_desired_port: false, reserve_ports_from: 0 }))
        .collect();
    let tunnel = provisioned_tunnel("localhost".to_string(), None, None, endpoints);

    assert_eq!(tunnel.proxies.len(), 57458);
    assert_eq!(tunnel.proxies[57455].port, 65535);
    assert_eq!(tunnel.proxies[57456].port, 0);
    assert_eq!(tunnel.proxies[57457].port, 1);
    assert_eq!(tunnel.proxies[57457].endpoint_name, "e57457");
}

#[test]
fn default_tunnel_configuration_forwards_three_local_ports() {
    let tunnel = get_default_tunnel_configuration();
    assert_eq!(tunnel.name, Some("my-tunnel".to_string()));
    assert_eq!(tunnel.server_address, "localhost");
    assert_eq!(tunnel.server_port, None);
    assert_eq!(tunnel.forward_connection_timeout_seconds, None);
    assert_eq!(tunnel.encryption, None);
    assert_eq!(tunnel.tunnel_key, None);
    assert_eq!(tunnel.monitor_key, Some("changethismonitorkey".to_string()));
    assert_eq!(
        tunnel.proxies,
        vec![
            proxy(
                "http",
                8080,
                ProxyConfiguration::Http { desired_name: Some("myname".to_string()) }
            ),
            proxy("tcp", 8081, ProxyConfiguration::Tcp { desired_port: None }),
            proxy("udp", 8082, ProxyConfiguration::Udp { desired_port: None, bind_address: None }),
        ]
    );
}

#[test]
fn default_server_configuration_has_four_endpoints() {
    let server = get_default_server_configuration();
    assert_eq!(server.server_port, None);
    assert_eq!(server.server_address, None);
    assert_eq!(server.monitor_key, Some("changethismonitorkey".to_string()));
    assert_eq!(server.max_tunnel_input_wait, None);
    assert_eq!(server.tunnel_key, None);
    assert_eq!(server.max_tunnels, None);
    assert_eq!(server.max_clients, None);
    assert_eq!(server.max_proxies_per_tunnel, None);
    assert_eq!(server.encryption, None);
    assert_eq!(
        server.endpoints,
        vec![
            (
                "http".to_string(),
                EndpointConfiguration::Http(HttpEndpointConfig {
                    port: 3457,
                    encryption: None,
                    address: None,
                    max_client_input_wait_secs: None,
                    hostname_template: "tunnel-{name}.localhost".to_string(),
                    full_url_template: None,
                    allow_custom_hostnames: None,
                    require_authorization: None,
                })
            ),
            (
                "monitor".to_string(),
                EndpointConfiguration::Monitoring(MonitorEndpointConfig {
                    encryption: None,
                    port: 3000,
                    address: None,
                    allow_cors_origins: None,
                    authentication: MonitorAuthentication::Basic {
                        username: "admin".to_string(),
                        password: "changethispassword".to_string(),
                    },
                })
            ),
            (
                "tcp".to_string(),
                EndpointConfiguration::Tcp(TcpEndpointConfig {
                    reserve_ports_from: 4000,
                    reserve_ports_to: 4050,
                    allow_desired_port: None,
                    encryption: None,
                    full_hostname_template: Some("localhost:{port}".to_string()),
                    address: None,
                })
            ),
            (
                "udp".to_string(),
                EndpointConfiguration::Udp(UdpEndpointConfig {
                    reserve_ports_from: 5000,
                    reserve_ports_to: 5050,
                    allow_desired_port: None,
                    inactivity_timeout: None,
                    full_hostname_template: Some("localhost:{port}".to_string()),
                    address: None,
                })
            ),
        ]
    );
}
