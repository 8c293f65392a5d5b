use tunnelize::common::address::{first_ipv4, host_port};
use tunnelize::common::connection::{check_bridge, ConnectionKind};
use tunnelize::common::data_bridge::{
    channel_bridge_step, stream_bridge_succeeded, udp_bridge_step, BridgeAction,
    ChannelBridgeEvent, UdpBridgeEvent,
};
use tunnelize::common::ip_address::is_ip_address_text;
use tunnelize::common::logger::{colors_enabled, level_label, resolve_log_level, LogLevel};
use tunnelize::common::cli::Commands;
use tunnelize::common::tcp_server::looks_like_tls;
use tunnelize::common::transport::StreamErrorKind;
use tunnelize::common::udp_client::{
    try_order, udp_write_step, UdpWriteAction, UdpWriteEvent, UdpWriteResult, UdpWriteState,
};
use tunnelize::common::udp_server::{is_active, is_expired, route_datagram, DatagramRoute};
use tunnelize::configuration::ServiceDefinition;
use tunnelize::http::HttpServerConfig;
use tunnelize::hub::messages::{HubMessage, MonitorMessage, TunnelMessage, TunnelMessageData, TunnelServerMessage};
use tunnelize::hub::tunnel_server::hub_message_for;
use tunnelize::http::messages::TunnelMessage as HttpTunnelMessage;
use tunnelize::server::startable_service;

#[test]
fn udp_bridge_moves_data_and_stops_on_ends() {
    assert_eq!(udp_bridge_step(UdpBridgeEvent::Cancelled), BridgeAction::Stop { close_other: false });
    assert_eq!(udp_bridge_step(UdpBridgeEvent::UdpRead(Ok(12))), BridgeAction::WriteToStream(12));
    assert_eq!(udp_bridge_step(UdpBridgeEvent::UdpRead(Ok(0))), BridgeAction::WriteToStream(0));
    assert_eq!(
        udp_bridge_step(UdpBridgeEvent::UdpRead(Err(StreamErrorKind::ConnectionReset))),
        BridgeAction::Stop { close_other: true }
    );
    assert_eq!(
        udp_bridge_step(UdpBridgeEvent::UdpRead(Err(StreamErrorKind::WouldBlock))),
        BridgeAction::Continue
    );
    assert_eq!(udp_bridge_step(UdpBridgeEvent::StreamRead(Ok(0))), BridgeAction::Stop { close_other: true });
    assert_eq!(udp_bridge_step(UdpBridgeEvent::StreamRead(Ok(5))), BridgeAction::SendToOther(5));
    assert_eq!(
        udp_bridge_step(UdpBridgeEvent::StreamRead(Err(StreamErrorKind::BrokenPipe))),
        BridgeAction::Stop { close_other: true }
    );
    assert_eq!(
        udp_bridge_step(UdpBridgeEvent::StreamRead(Err(StreamErrorKind::Other))),
        BridgeAction::Continue
    );
}

#[test]
fn channel_bridge_moves_data_and_stops_on_ends() {
    assert_eq!(channel_bridge_step(ChannelBridgeEvent::ChannelReceived(Ok(()))), BridgeAction::WriteToStream(0));
    assert_eq!(
        channel_bridge_step(ChannelBridgeEvent::ChannelReceived(Err(StreamErrorKind::ConnectionAborted))),
        BridgeAction::Stop { close_other: false }
    );
    assert_eq!(
        channel_bridge_step(ChannelBridgeEvent::ChannelReceived(Err(StreamErrorKind::UnexpectedEof))),
        BridgeAction::Continue
    );
    assert_eq!(channel_bridge_step(ChannelBridgeEvent::StreamRead(Ok(0))), BridgeAction::Stop { close_other: true });
    assert_eq!(channel_bridge_step(ChannelBridgeEvent::StreamRead(Ok(3))), BridgeAction::SendToOther(3));
    assert_eq!(
        channel_bridge_step(ChannelBridgeEvent::StreamRead(Err(StreamErrorKind::UnexpectedEof))),
        BridgeAction::Stop { close_other: true }
    );
}

#[test]
fn stream_bridges_forgive_tls_eof_only() {
    assert!(stream_bridge_succeeded(false, None));
    assert!(stream_bridge_succeeded(true, Some(StreamErrorKind::UnexpectedEof)));
    assert!(!stream_bridge_succeeded(false, Some(StreamErrorKind::UnexpectedEof)));
    assert!(!stream_bridge_succeeded(true, Some(StreamErrorKind::ConnectionReset)));
}

#[test]
fn bridges_between_kinds() {
    assert!(check_bridge(ConnectionKind::TcpStream, ConnectionKind::TlsStreamClient).is_ok());
    assert!(check_bridge(ConnectionKind::TlsStreamServer, ConnectionKind::ChannelSocket).is_ok());
    assert_eq!(
        check_bridge(ConnectionKind::TlsStreamClient, ConnectionKind::TcpStream).err(),
        Some("Incompatible Protocol Types for pipe 'tcp (tls-client)' and 'tcp'".to_string())
    );
    assert_eq!(
        check_bridge(ConnectionKind::UdpSocket, ConnectionKind::UdpSocket).err(),
        Some("Incompatible Protocol Types for pipe 'udp' and 'udp'".to_string())
    );
    assert_eq!(ConnectionKind::ChannelSocket.get_protocol(), "channel socket");
    assert_eq!(ConnectionKind::TlsStreamServer.get_protocol(), "tcp (tls-server)");
}

#[test]
fn tls_handshakes_are_recognised() {
    assert!(looks_like_tls(&[0x16, 0x03, 0x01, 0x02, 0x00]));
    assert!(looks_like_tls(&[0x16, 0x03, 0x04, 0x00, 0x10, 0xff]));
    assert!(!looks_like_tls(&[0x16, 0x03, 0x05, 0x00, 0x10]));
    assert!(!looks_like_tls(&[0x16, 0x03, 0x00, 0x00, 0x10]));
    assert!(!looks_like_tls(&[0x17, 0x03, 0x03, 0x00, 0x10]));
    assert!(!looks_like_tls(&[0x16, 0x03, 0x03, 0x00]));
    assert!(!looks_like_tls(b"GET / HTTP/1.1"));
}

#[test]
fn log_levels_and_labels() {
    assert_eq!(resolve_log_level(&Commands::Init { command: None }, "debug"), "error");
    assert_eq!(resolve_log_level(&Commands::Server { config: None }, "debug"), "debug");
    assert_eq!(resolve_log_level(&Commands::Tunnel { config: None, verbose: true }, "info"), "info");
    assert_eq!(resolve_log_level(&Commands::Tunnel { config: None, verbose: false }, "info"), "error");
    assert_eq!(level_label(LogLevel::Warn, true), "\x1b[33mWARN\x1b[0m");
    assert_eq!(level_label(LogLevel::Trace, false), "TRACE");
    assert!(colors_enabled(None));
    assert!(colors_enabled(Some("true".to_string())));
    assert!(!colors_enabled(Some("TRUE".to_string())));
    assert!(!colors_enabled(Some("false".to_string())));
}

#[test]
fn udp_clients_time_out() {
    assert!(is_expired(30, 30));
    assert!(!is_expired(29, 30));
    assert!(is_active(0, 30, false, false));
    assert!(!is_active(0, 30, true, false));
    assert!(!is_active(0, 30, false, true));
    assert!(!is_active(31, 30, false, false));
    assert_eq!(route_datagram(false, false), DatagramRoute::Open);
    assert_eq!(route_datagram(true, true), DatagramRoute::Forward);
    assert_eq!(route_datagram(true, false), DatagramRoute::Reopen);
}

#[test]
fn ipv6_destinations_are_tried_first() {
    assert_eq!(try_order(&vec![false, true, false, true]), vec![1, 3, 0, 2]);
    assert_eq!(try_order(&vec![]), Vec::<usize>::new());
    assert_eq!(first_ipv4(&vec![false, false, true, true]), Some(2));
    assert_eq!(first_ipv4(&vec![false]), None);
}

#[test]
fn host_and_port_text() {
    assert_eq!(host_port("0.0.0.0", 3457), "0.0.0.0:3457");
    assert_eq!(host_port("example.com", 0), "example.com:0");
}

#[test]
fn ip_address_text_is_recognised() {
    assert!(is_ip_address_text("10.0.0.255"));
    assert!(is_ip_address_text("1:2:3:4:5:6:7:8"));
    assert!(!is_ip_address_text("1:2:3:4:5:6:7:8:9"));
    assert!(!is_ip_address_text("10.0.0"));
}

#[test]
fn only_tunnel_messages_reach_the_hub() {
    let message = TunnelServerMessage::Tunnel(TunnelMessage {
        service_name: "http".to_string(),
        data: TunnelMessageData::Http(HttpTunnelMessage::Disconnect { tunnel_id: 3 }),
    });
    match hub_message_for(message) {
        Some(HubMessage::Tunnel(m)) => assert_eq!(m.service_name, "http"),
        _ => panic!("expected the tunnel message to be passed on"),
    }
    assert!(hub_message_for(TunnelServerMessage::Monitor(MonitorMessage::ListServices)).is_none());
}

#[test]
fn only_http_services_start() {
    assert!(startable_service(ServiceDefinition::Http(HttpServerConfig::default())).is_ok());
    assert_eq!(
        startable_service(ServiceDefinition::Tcp { port_range: (1, 2) }).err(),
        Some("Unsupported server type.")
    );
    assert_eq!(
        startable_service(ServiceDefinition::MonitoringApi { port: 9 }).err(),
        Some("Unsupported server type.")
    );
}

#[test]
fn udp_write_with_a_kept_destination_sends_there_only() {
    let (state, action) =
        udp_write_step(UdpWriteState::Ready, UdpWriteEvent::Begin { has_destination: true });
    assert_eq!(state, UdpWriteState::SendingToDestination);
    assert_eq!(action, UdpWriteAction::SendToDestination);
    assert_eq!(
        udp_write_step(state.clone(), UdpWriteEvent::Sent { size: 7 }),
        (
            UdpWriteState::Ready,
            UdpWriteAction::Finish(UdpWriteResult::Sent { size: 7, destination: None })
        )
    );
    assert_eq!(
        udp_write_step(state, UdpWriteEvent::SendFailed),
        (UdpWriteState::Ready, UdpWriteAction::Finish(UdpWriteResult::LastError))
    );
}

#[test]
fn udp_write_without_addresses_is_not_found() {
    let (state, action) =
        udp_write_step(UdpWriteState::Ready, UdpWriteEvent::Begin { has_destination: false });
    assert_eq!(state, UdpWriteState::Resolving);
    assert_eq!(action, UdpWriteAction::Resolve);
    assert_eq!(
        udp_write_step(state, UdpWriteEvent::Resolved { is_ipv6: vec![] }),
        (UdpWriteState::Ready, UdpWriteAction::Finish(UdpWriteResult::NotResolved))
    );
}

#[test]
fn udp_write_tries_ipv6_first_and_keeps_the_first_that_works() {
    let (state, action) = udp_write_step(
        UdpWriteState::Resolving,
        UdpWriteEvent::Resolved { is_ipv6: vec![false, true, false] },
    );
    assert_eq!(state, UdpWriteState::Trying { order: vec![1, 0, 2], at: 0 });
    assert_eq!(action, UdpWriteAction::SendTo { position: 1 });
    let (state, action) = udp_write_step(state, UdpWriteEvent::SendFailed);
    assert_eq!(action, UdpWriteAction::SendTo { position: 0 });
    assert_eq!(
        udp_write_step(state, UdpWriteEvent::Sent { size: 5 }),
        (
            UdpWriteState::Ready,
            UdpWriteAction::Finish(UdpWriteResult::Sent { size: 5, destination: Some(0) })
        )
    );
}

#[test]
fn udp_write_returns_the_last_error_when_every_send_fails() {
    let mut state = UdpWriteState::Resolving;
    let mut event = UdpWriteEvent::Resolved { is_ipv6: vec![true, false] };
    let mut positions = Vec::new();
    loop {
        let (next, action) = udp_write_step(state, event);
        state = next;
        match action {
            UdpWriteAction::SendTo { position } => positions.push(position),
            UdpWriteAction::Finish(result) => {
                assert_eq!(result, UdpWriteResult::LastError);
                break;
            }
            other => panic!("unexpected action {:?}", other),
        }
        event = UdpWriteEvent::SendFailed;
    }
    assert_eq!(positions, vec![0, 1]);
    assert_eq!(state, UdpWriteState::Ready);
}
