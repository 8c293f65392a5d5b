use vstd::prelude::*;

use crate::previous::tunnel::messages::TunnelMessage;

verus! {

/// The first message on a connection to a hub that routes by service name: a monitoring
/// request or a tunnel message.
pub enum HubServerMessage {
    Monitor(MonitorMessage),
    Tunnel(TunnelMessage),
}

/// What such a hub hands on to one of its services.
pub enum HubChannelMessage {
    Test(String),
    Tunnel(TunnelMessage),
}

/// A request to such a hub's monitoring side.
pub enum MonitorMessage {
    ListServices,
}

} // verus!
