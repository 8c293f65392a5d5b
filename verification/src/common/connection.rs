use vstd::prelude::*;

verus! {

/// The kinds of connection that data is carried over.
#[derive(Debug, Clone, Copy, PartialEq, Eq)]
pub enum ConnectionKind {
    TcpStream,
    UdpSocket,
    TlsStreamServer,
    TlsStreamClient,
    ChannelSocket,
}

/// The name of a connection kind's protocol.
pub open spec fn protocol_name(kind: ConnectionKind) -> Seq<char> {
    match kind {
        ConnectionKind::TcpStream => "tcp"@,
        ConnectionKind::TlsStreamServer => "tcp (tls-server)"@,
        ConnectionKind::TlsStreamClient => "tcp (tls-client)"@,
        ConnectionKind::UdpSocket => "udp"@,
        ConnectionKind::ChannelSocket => "channel socket"@,
    }
}

/// Whether data can be bridged from a connection of kind `from` to one of kind `to`.
pub open spec fn bridgeable(from: ConnectionKind, to: ConnectionKind) -> bool {
    match (from, to) {
        (ConnectionKind::TcpStream, ConnectionKind::TcpStream)
        | (ConnectionKind::TcpStream, ConnectionKind::TlsStreamServer)
        | (ConnectionKind::TlsStreamServer, ConnectionKind::TcpStream)
        | (ConnectionKind::TlsStreamServer, ConnectionKind::TlsStreamServer)
        | (ConnectionKind::TcpStream, ConnectionKind::TlsStreamClient)
        | (ConnectionKind::UdpSocket, ConnectionKind::TcpStream)
        | (ConnectionKind::TcpStream, ConnectionKind::UdpSocket)
        | (ConnectionKind::UdpSocket, ConnectionKind::TlsStreamServer)
        | (ConnectionKind::TlsStreamServer, ConnectionKind::UdpSocket)
        | (ConnectionKind::UdpSocket, ConnectionKind::TlsStreamClient)
        | (ConnectionKind::TcpStream, ConnectionKind::ChannelSocket)
        | (ConnectionKind::TlsStreamServer, ConnectionKind::ChannelSocket) => true,
        _ => false,
    }
}

/// The error text for a bridge between kinds that cannot be bridged.
pub open spec fn incompatible_text(from: ConnectionKind, to: ConnectionKind) -> Seq<char> {
    "Incompatible Protocol Types for pipe '"@ + protocol_name(from) + "' and '"@ + protocol_name(
        to,
    ) + "'"@
}

impl ConnectionKind {
    /// The name of this kind's protocol.
    pub fn get_protocol(&self) -> (out: &'static str)
        ensures
            out@ == protocol_name(*self),
    {
        match self {
            ConnectionKind::TcpStream => "tcp",
            ConnectionKind::TlsStreamServer => "tcp (tls-server)",
            ConnectionKind::TlsStreamClient => "tcp (tls-client)",
            ConnectionKind::UdpSocket => "udp",
            ConnectionKind::ChannelSocket => "channel socket",
        }
    }
}

/// Whether data can be bridged from `from` to `to`; when it cannot, the error text.
pub fn check_bridge(from: ConnectionKind, to: ConnectionKind) -> (out: Result<(), String>)
    ensures
        out is Ok <==> (from is TcpStream || (from is TlsStreamServer && !(to is TlsStreamClient)) || (
        from is UdpSocket && (to is TcpStream || to is TlsStreamServer || to is TlsStreamClient))),
        bridgeable(from, to) ==> out is Ok,
        !bridgeable(from, to) ==> (out matches Err(text) && text@ == incompatible_text(from, to)),
{
    match (from, to) {
        (ConnectionKind::TcpStream, ConnectionKind::TcpStream)
        | (ConnectionKind::TcpStream, ConnectionKind::TlsStreamServer)
        | (ConnectionKind::TlsStreamServer, ConnectionKind::TcpStream)
        | (ConnectionKind::TlsStreamServer, ConnectionKind::TlsStreamServer)
        | (ConnectionKind::TcpStream, ConnectionKind::TlsStreamClient)
        | (ConnectionKind::UdpSocket, ConnectionKind::TcpStream)
        | (ConnectionKind::TcpStream, ConnectionKind::UdpSocket)
        | (ConnectionKind::UdpSocket, ConnectionKind::TlsStreamServer)
        | (ConnectionKind::TlsStreamServer, ConnectionKind::UdpSocket)
        | (ConnectionKind::UdpSocket, ConnectionKind::TlsStreamClient)
        | (ConnectionKind::TcpStream, ConnectionKind::ChannelSocket)
        | (ConnectionKind::TlsStreamServer, ConnectionKind::ChannelSocket) => Ok(()),
        _ => {
            let mut text = "Incompatible Protocol Types for pipe '".to_string();
            text.append(from.get_protocol());
            text.append("' and '");
            text.append(to.get_protocol());
            text.append("'");
            Err(text)
        },
    }
}

/// Which kinds data can be bridged between: a plain TCP stream to any kind; the server side of
/// a TLS stream to anything but the client side of one; a UDP socket to a plain stream or either
/// side of a TLS stream; nothing from the client side of a TLS stream or from a channel socket.
/// In particular two plain TCP streams can always be bridged.
pub proof fn law_bridgeable_kinds(from: ConnectionKind, to: ConnectionKind)
    ensures
        bridgeable(from, to) <==> (from is TcpStream || (from is TlsStreamServer && !(
        to is TlsStreamClient)) || (from is UdpSocket && (to is TcpStream || to is TlsStreamServer
            || to is TlsStreamClient))),
        bridgeable(ConnectionKind::TcpStream, ConnectionKind::TcpStream),
        !bridgeable(ConnectionKind::UdpSocket, ConnectionKind::UdpSocket),
{
}

} // verus!
