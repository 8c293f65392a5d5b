use vstd::prelude::*;

pub mod messages;
pub mod requests;
pub mod tunnel_server;

verus! {

/// Settings of the hub that tunnels connect to.
#[derive(Debug, Clone, Copy, PartialEq, Eq)]
pub struct HubConfiguration {
    pub server_port: u16,
    pub max_tunnel_input_wait: u16,
}

} // verus!
