use vstd::prelude::*;

verus! {

/// A forwarding that a tunnel asks for.
pub struct TunnelClientRequest {
    pub name: Option<String>,
    pub forward_address: String,
}

/// What a tunnel sends to the server.
pub enum TunnelMessage {
    Connect { client_requests: Vec<TunnelClientRequest> },
    Disconnect { tunnel_id: u32 },
    LinkDeny { tunnel_id: u32, id: u32, reason: String },
    LinkAccept { tunnel_id: u32, id: u32 },
}

/// A forwarding as the server set it up.
#[derive(Clone)]
pub struct ResolvedLink {
    pub forward_address: String,
    pub client_address: String,
    pub link_id: u32,
}

/// What the server sends to a tunnel.
pub enum ServerMessage {
    ConnectAccept { tunnel_id: u32, resolved_links: Vec<ResolvedLink> },
    LinkRequest { id: u32, link_id: u32 },
}

} // verus!
