use vstd::prelude::*;

use crate::http::messages::TunnelMessage as HttpTunnelMessage;

verus! {

/// A tunnel message addressed to one service of a hub by the service's name.
pub struct TunnelMessage {
    pub service_name: String,
    pub data: TunnelMessageData,
}

/// The service-specific part of such a message.
pub enum TunnelMessageData {
    Http(HttpTunnelMessage),
}

} // verus!
