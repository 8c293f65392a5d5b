use vstd::prelude::*;

verus! {

/// A forwarding of a tunnel: where it forwards to and the client address it serves.
pub struct ProxyLink {
    pub forward_address: String,
    pub client_address: String,
}

/// Where a client address leads: a tunnel and one of its links.
#[derive(Debug, Clone, Copy, PartialEq, Eq)]
pub struct TunnelLink {
    pub tunnel_id: u32,
    pub link_id: u32,
}

} // verus!
