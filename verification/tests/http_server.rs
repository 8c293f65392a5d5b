use tunnelize::common::transport::StreamErrorKind;
use tunnelize::http::host_list::HostList;
use tunnelize::http::http_server::{link_failure_reply, link_request, route_client};
use tunnelize::http::messages::ServerMessage;

#[test]
fn client_without_host_is_turned_away() {
    let hosts = HostList::new("{dynamic}".to_string());
    assert_eq!(
        route_client(&hosts, &None).err(),
        Some("No hostname found for this request. Cannot resolve to a tunnel. Closing connection.")
    );
}

#[test]
fn client_of_unknown_host_is_turned_away() {
    let hosts = HostList::new("{dynamic}".to_string());
    assert_eq!(
        route_client(&hosts, &Some("ghost".to_string())).err(),
        Some("No tunnel connected for this hostname. Closing connection.")
    );
}

#[test]
fn client_of_registered_host_reaches_its_tunnel() {
    let mut hosts = HostList::new("{dynamic}.io".to_string());
    hosts.register(11, Some("app".to_string()));
    let host = route_client(&hosts, &Some("app.io".to_string())).unwrap();
    assert_eq!((host.tunnel_id, host.host_id), (11, 1));
    assert!(matches!(
        link_request(5, host),
        ServerMessage::ClientLinkRequest { client_id: 5, host_id: 1 }
    ));
}

#[test]
fn link_failures_are_explained() {
    let gone = "Tunnel disconnected while sending link request.";
    let other = "Could not connect to tunnel.";
    assert_eq!(link_failure_reply(Some(StreamErrorKind::BrokenPipe)), gone);
    assert_eq!(link_failure_reply(Some(StreamErrorKind::ConnectionReset)), gone);
    assert_eq!(link_failure_reply(Some(StreamErrorKind::ConnectionAborted)), other);
    assert_eq!(link_failure_reply(None), other);
}
