use tunnelize::common::cli::Commands;
use tunnelize::configuration::{
    check_configuration, get_configuration_path, get_default_command, get_default_server_config,
    get_default_tunnel_config, validate_configuration, Configuration, Pattern, ServiceDefinition,
    TunnelConfiguration, TunnelType,
};

fn tunnel_at(address: &str) -> Configuration {
    Configuration {
        server: None,
        tunnel: Some(TunnelConfiguration {
            hub_server_address: address.to_string(),
            tunnels: Vec::new(),
        }),
    }
}

const ADDRESS_ERROR: &str =
    "Tunnel: Server address must be in the format '<ip>:<port>' or '<hostname>:<port>'.";

#[test]
fn configuration_file_name() {
    assert_eq!(get_configuration_path(), "tunnelize.json");
}

#[test]
fn default_server_configuration() {
    let config = get_default_server_config();
    assert_eq!(config.hub.server_port, 3456);
    assert_eq!(config.hub.max_tunnel_input_wait, 10);
    assert_eq!(config.services.len(), 1);
    assert_eq!(config.services[0].0, "http");
    match &config.services[0].1 {
        ServiceDefinition::Http(http) => {
            assert_eq!(http.client_port, 3457);
            assert_eq!(http.max_client_input_wait, 10);
            assert_eq!(http.tunnel_auth_key, None);
            assert_eq!(http.host_template, "t-{name}.localhost");
            assert_eq!(http.tunnel_url_template, "http://{hostname}:3457");
            assert!(http.allow_custom_hostnames);
        }
        _ => panic!("expected an HTTP service"),
    }
}

#[test]
fn default_tunnel_configuration() {
    let config = get_default_tunnel_config();
    assert_eq!(config.hub_server_address, "0.0.0.0:3456");
    assert_eq!(config.tunnels.len(), 1);
    assert_eq!(config.tunnels[0].server_service, "http");
    let TunnelType::Http(http) = &config.tunnels[0].tunnel;
    assert_eq!(http.proxies.len(), 1);
    assert_eq!(http.proxies[0].desired_name.as_deref(), Some("8000"));
    assert_eq!(http.proxies[0].forward_address, "0.0.0.0:8000");
    assert!(http.tunnel_auth_key.is_none());
    assert!(http.client_authorization.is_none());
}

#[test]
fn good_server_addresses_pass() {
    for address in ["0.0.0.0:3456", "127.0.0.1:1", "tunnel.example.com:443", "localhost:3456"] {
        assert!(matches!(validate_configuration(&tunnel_at(address)), Some(Ok(()))), "{}", address);
    }
}

#[test]
fn bad_server_addresses_fail_with_one_error() {
    for address in ["", "localhost", "Example.com:80", "host:123456", "1.2.3.4"] {
        match validate_configuration(&tunnel_at(address)) {
            Some(Err(errors)) => assert_eq!(errors, vec![ADDRESS_ERROR.to_string()]),
            _ => panic!("expected an error for {:?}", address),
        }
    }
}

#[test]
fn configuration_without_tunnel_part_passes() {
    let config = Configuration { server: Some(get_default_server_config()), tunnel: None };
    assert!(matches!(validate_configuration(&config), Some(Ok(()))));
}

#[test]
fn patterns_compile_and_match() {
    let ip_port = Pattern::new("^(?:[0-9]{1,3}\\.){3}[0-9]{1,3}:[0-9]{1,5}$").unwrap();
    let hostname_port = Pattern::new("^[a-z0-9-.]+:[0-9]{1,5}$").unwrap();
    assert!(ip_port.is_match("10.0.0.1:80"));
    assert!(!ip_port.is_match("10.0.0:80"));
    assert!(hostname_port.is_match("a-b.c:1"));
    assert!(Pattern::new("(").is_none());
    assert!(matches!(check_configuration(&tunnel_at("999.1.1.1:1"), &ip_port, &hostname_port), Ok(())));
}

#[test]
fn default_command_is_the_tunnel_without_a_file() {
    assert!(matches!(
        get_default_command(None, false),
        Commands::Tunnel { config: None, verbose: false }
    ));
    assert!(matches!(
        get_default_command(Some(b"not json".to_vec()), true),
        Commands::Tunnel { config: None, verbose: true }
    ));
}

#[test]
fn server_only_file_runs_the_server() {
    let file = br#"{"server": {"hub": {}}}"#.to_vec();
    assert!(matches!(
        get_default_command(Some(file), false),
        Commands::Server { config: None }
    ));
}

#[test]
fn file_with_a_tunnel_runs_the_tunnel() {
    let both = br#"{"server": {}, "tunnel": {}}"#.to_vec();
    assert!(matches!(
        get_default_command(Some(both), false),
        Commands::Tunnel { config: None, verbose: false }
    ));
    let null_server = br#"{"server": null}"#.to_vec();
    assert!(matches!(
        get_default_command(Some(null_server), false),
        Commands::Tunnel { config: None, verbose: false }
    ));
    let not_object = b"[1, 2]".to_vec();
    assert!(matches!(
        get_default_command(Some(not_object), false),
        Commands::Tunnel { config: None, verbose: false }
    ));
}

#[test]
fn only_the_first_two_keys_count() {
    // Keys are read in sorted order: "a", "b" come before "server".
    let file = br#"{"a": 1, "b": 2, "server": {}}"#.to_vec();
    assert!(matches!(
        get_default_command(Some(file), false),
        Commands::Tunnel { config: None, verbose: false }
    ));
    let file = br#"{"a": 1, "server": {}}"#.to_vec();
    assert!(matches!(
        get_default_command(Some(file), false),
        Commands::Server { config: None }
    ));
}
