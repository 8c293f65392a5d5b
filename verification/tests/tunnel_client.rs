use tunnelize::http::messages::{ResolvedLink, ServerMessage, TunnelMessage};
use tunnelize::http::tunnel_client::{
    connect_request, forward_unreachable, on_read_failure, ClientAction, ReadFailureAction,
    TunnelClientState,
};
use tunnelize::http::{ClientAuthorizeUser, HttpTunnelConfig, TunnelProxy};

fn link(host_id: u32, forward: &str) -> ResolvedLink {
    ResolvedLink {
        forward_address: forward.to_string(),
        hostname: format!("h{}", host_id),
        host_id,
    }
}

#[test]
fn accepted_tunnel_takes_its_id_and_forwards() {
    let mut state = TunnelClientState::new(0);
    let action = state.handle_server_message(ServerMessage::TunnelAccept {
        tunnel_id: 42,
        resolved_links: vec![link(1, "127.0.0.1:8000"), link(2, "127.0.0.1:9000")],
    });
    assert!(matches!(action, ClientAction::Configured));
    assert!(matches!(state.disconnect_request(), TunnelMessage::Disconnect { tunnel_id: 42 }));
    match state.handle_server_message(ServerMessage::ClientLinkRequest { client_id: 9, host_id: 2 }) {
        ClientAction::OpenLink { forward_address, accept } => {
            assert_eq!(forward_address, "127.0.0.1:9000");
            assert!(matches!(
                accept,
                TunnelMessage::ClientLinkAccept { tunnel_id: 42, client_id: 9 }
            ));
        }
        _ => panic!("expected the link to open"),
    }
}

#[test]
fn later_link_for_the_same_host_wins() {
    let mut state = TunnelClientState::new(1);
    state.handle_server_message(ServerMessage::TunnelAccept {
        tunnel_id: 1,
        resolved_links: vec![link(1, "first:1"), link(1, "second:2")],
    });
    match state.handle_server_message(ServerMessage::ClientLinkRequest { client_id: 0, host_id: 1 }) {
        ClientAction::OpenLink { forward_address, .. } => assert_eq!(forward_address, "second:2"),
        _ => panic!("expected the link to open"),
    }
}

#[test]
fn unknown_host_is_denied_with_its_id() {
    let mut state = TunnelClientState::new(7);
    match state.handle_server_message(ServerMessage::ClientLinkRequest { client_id: 3, host_id: 120 }) {
        ClientAction::DenyLink { message: TunnelMessage::ClientLinkDeny { tunnel_id, client_id, reason } } => {
            assert_eq!((tunnel_id, client_id), (7, 3));
            assert_eq!(reason, "Host ID not defined for tunnel: 120");
        }
        _ => panic!("expected a denial"),
    }
}

#[test]
fn unreachable_forward_is_denied() {
    match forward_unreachable(4, 8, &"localhost:3000".to_string()) {
        TunnelMessage::ClientLinkDeny { tunnel_id, client_id, reason } => {
            assert_eq!((tunnel_id, client_id), (8, 4));
            assert_eq!(reason, "Could not connect to forward from localhost:3000");
        }
        _ => panic!("expected a denial"),
    }
}

#[test]
fn read_failures_end_or_skip() {
    assert_eq!(on_read_failure(true, true), ReadFailureAction::Finish);
    assert_eq!(on_read_failure(true, false), ReadFailureAction::Fail);
    assert_eq!(on_read_failure(false, true), ReadFailureAction::Skip);
    assert_eq!(on_read_failure(false, false), ReadFailureAction::Skip);
}

#[test]
fn connect_request_copies_the_proxies() {
    let config = HttpTunnelConfig {
        proxies: vec![
            TunnelProxy { desired_name: Some("web".to_string()), forward_address: "0.0.0.0:80".to_string() },
            TunnelProxy { desired_name: None, forward_address: "0.0.0.0:81".to_string() },
        ],
        tunnel_auth_key: Some("k".to_string()),
        client_authorization: Some(ClientAuthorizeUser {
            realm: None,
            username: "u".to_string(),
            password: "p".to_string(),
        }),
    };
    match connect_request(&config) {
        TunnelMessage::Connect { proxies, tunnel_auth_key, client_authorization } => {
            assert_eq!(tunnel_auth_key, Some("k".to_string()));
            let user = client_authorization.unwrap();
            assert_eq!((user.realm, user.username, user.password), (None, "u".to_string(), "p".to_string()));
            assert_eq!(proxies.len(), 2);
            assert_eq!(proxies[0].desired_name.as_deref(), Some("web"));
            assert_eq!(proxies[0].forward_address, "0.0.0.0:80");
            assert_eq!(proxies[1].desired_name, None);
            assert_eq!(proxies[1].forward_address, "0.0.0.0:81");
        }
        _ => panic!("expected a connect request"),
    }
}

#[test]
fn default_config_connects_without_key_or_credentials() {
    match connect_request(&HttpTunnelConfig::default()) {
        TunnelMessage::Connect { proxies, tunnel_auth_key, client_authorization } => {
            assert_eq!(proxies.len(), 1);
            assert_eq!(proxies[0].desired_name.as_deref(), Some("8000"));
            assert_eq!(proxies[0].forward_address, "0.0.0.0:8000");
            assert!(tunnel_auth_key.is_none());
            assert!(client_authorization.is_none());
        }
        _ => panic!("expected a connect request"),
    }
}

#[test]
fn denied_tunnel_reports_the_reason_and_keeps_its_state() {
    let mut state = TunnelClientState::new(4);
    state.handle_server_message(ServerMessage::TunnelAccept {
        tunnel_id: 4,
        resolved_links: vec![ResolvedLink {
            forward_address: "127.0.0.1:80".to_string(),
            hostname: "a".to_string(),
            host_id: 1,
        }],
    });
    match state.handle_server_message(ServerMessage::TunnelDeny { reason: "Invalid auth key provided".to_string() }) {
        ClientAction::Denied { reason } => assert_eq!(reason, "Invalid auth key provided"),
        _ => panic!("expected a denial"),
    }
    match state.handle_server_message(ServerMessage::ClientLinkRequest { client_id: 2, host_id: 1 }) {
        ClientAction::OpenLink { forward_address, .. } => assert_eq!(forward_address, "127.0.0.1:80"),
        _ => panic!("expected an open link"),
    }
}
