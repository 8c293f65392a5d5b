use vstd::prelude::*;

use crate::common::transport::StreamErrorKind;

use super::host_list::{lookup, HostList, RegisteredHost};
use super::messages::ServerMessage;

verus! {

/// Told to a client whose first request names no host.
pub open spec fn no_hostname_reply() -> Seq<char> {
    "No hostname found for this request. Cannot resolve to a tunnel. Closing connection."@
}

/// Told to a client whose host has no tunnel.
pub open spec fn no_tunnel_reply() -> Seq<char> {
    "No tunnel connected for this hostname. Closing connection."@
}

/// Where a client's first request leads: the registered host of the hostname it names, or the
/// reply that closes the connection when it names none or no tunnel holds that hostname.
pub fn route_client(hosts: &HostList, resolved_host: &Option<String>) -> (out: Result<
    RegisteredHost,
    &'static str,
>)
    ensures
        match resolved_host {
            None => out matches Err(reply) && reply@ == no_hostname_reply(),
            Some(hostname) => match lookup(hosts.hosts(), hostname@) {
                Some(host) => out == Ok::<RegisteredHost, &'static str>(host),
                None => out matches Err(reply) && reply@ == no_tunnel_reply(),
            },
        },
{
    match resolved_host {
        None => Err(
            "No hostname found for this request. Cannot resolve to a tunnel. Closing connection.",
        ),
        Some(hostname) => match hosts.find_host(hostname) {
            Some(host) => Ok(host),
            None => Err("No tunnel connected for this hostname. Closing connection."),
        },
    }
}

/// The request that asks the tunnel of `host` to open a link for `client_id`.
pub fn link_request(client_id: u32, host: RegisteredHost) -> (out: ServerMessage)
    ensures
        out == (ServerMessage::ClientLinkRequest { client_id, host_id: host.host_id }),
{
    ServerMessage::ClientLinkRequest { client_id, host_id: host.host_id }
}

/// The reply to a client whose link request could not be sent to its tunnel: `io_kind` is the
/// kind of the I/O failure, `None` when sending failed otherwise.
pub fn link_failure_reply(io_kind: Option<StreamErrorKind>) -> (out: &'static str)
    ensures
        out@ == (match io_kind {
            Some(StreamErrorKind::BrokenPipe) | Some(StreamErrorKind::ConnectionReset) =>
                "Tunnel disconnected while sending link request."@,
            _ => "Could not connect to tunnel."@,
        }),
{
    match io_kind {
        Some(StreamErrorKind::BrokenPipe) | Some(StreamErrorKind::ConnectionReset) =>
            "Tunnel disconnected while sending link request.",
        _ => "Could not connect to tunnel.",
    }
}

} // verus!
