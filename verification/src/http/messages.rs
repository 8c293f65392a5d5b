use vstd::prelude::*;

use super::ClientAuthorizeUser;

verus! {

/// What a tunnel sends to the HTTP service.
pub enum TunnelMessage {
    Connect {
        proxies: Vec<Proxy>,
        tunnel_auth_key: Option<String>,
        client_authorization: Option<ClientAuthorizeUser>,
    },
    Disconnect { tunnel_id: u32 },
    ClientLinkDeny { tunnel_id: u32, client_id: u32, reason: String },
    ClientLinkAccept { tunnel_id: u32, client_id: u32 },
}

/// A forwarding that a tunnel asks for.
pub struct Proxy {
    pub desired_name: Option<String>,
    pub forward_address: String,
}

/// What the HTTP service sends to a tunnel.
pub enum ServerMessage {
    TunnelAccept { tunnel_id: u32, resolved_links: Vec<ResolvedLink> },
    TunnelDeny { reason: String },
    ClientLinkRequest { client_id: u32, host_id: u32 },
}

/// A forwarding as the service set it up.
#[derive(Clone)]
pub struct ResolvedLink {
    pub forward_address: String,
    pub hostname: String,
    pub host_id: u32,
}

} // verus!
