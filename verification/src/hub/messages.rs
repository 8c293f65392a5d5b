use vstd::prelude::*;

use crate::http::messages::TunnelMessage as HttpTunnelMessage;

verus! {

/// What a connection to the hub sends first.
pub enum TunnelServerMessage {
    Monitor(MonitorMessage),
    Tunnel(TunnelMessage),
}

/// What the hub passes on to its services.
pub enum HubMessage {
    Test(String),
    Tunnel(TunnelMessage),
}

/// A request of the monitoring side.
pub enum MonitorMessage {
    ListServices,
}

/// A message of a tunnel for one named service.
pub struct TunnelMessage {
    pub service_name: String,
    pub data: TunnelMessageData,
}

/// The service-specific part of a tunnel message.
pub enum TunnelMessageData {
    Http(HttpTunnelMessage),
}

} // verus!
