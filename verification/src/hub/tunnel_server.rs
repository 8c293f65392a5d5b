use vstd::prelude::*;

use super::messages::{HubMessage, TunnelServerMessage};

verus! {

/// What the hub does with the first message of a connection: a tunnel's message is passed on
/// to the hub's services; anything else is dropped.
pub fn hub_message_for(message: TunnelServerMessage) -> (out: Option<HubMessage>)
    ensures
        match message {
            TunnelServerMessage::Tunnel(m) => out == Some(HubMessage::Tunnel(m)),
            _ => out is None,
        },
{
    match message {
        TunnelServerMessage::Tunnel(tunnel_message) => Some(HubMessage::Tunnel(tunnel_message)),
        _ => None,
    }
}

} // verus!
