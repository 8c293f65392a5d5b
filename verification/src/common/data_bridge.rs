use vstd::prelude::*;

use super::transport::{ends_connection, is_connection_end, StreamErrorKind};

verus! {

/// What happened while a UDP client and a stream were bridged.
#[derive(Debug, Clone, Copy, PartialEq, Eq)]
pub enum UdpBridgeEvent {
    /// The bridge was cancelled.
    Cancelled,
    /// A read from the UDP client finished: the byte count, or the kind of failure.
    UdpRead(Result<usize, StreamErrorKind>),
    /// A read from the stream finished: the byte count, or the kind of failure.
    StreamRead(Result<usize, StreamErrorKind>),
}

/// What a bridge does next.
#[derive(Debug, Clone, Copy, PartialEq, Eq)]
pub enum BridgeAction {
    /// Write the first `n` bytes read from the UDP side (or all that the channel gave) to the
    /// stream.
    WriteToStream(usize),
    /// Send the bytes read from the stream to the other side; `n` bytes were read.
    SendToOther(usize),
    /// Log the failure and go on.
    Continue,
    /// Stop bridging; `close_other` says whether the other side is closed too.
    Stop { close_other: bool },
}

/// What happened while a channel socket and a stream were bridged.
#[derive(Debug, Clone, Copy, PartialEq, Eq)]
pub enum ChannelBridgeEvent {
    /// The channel gave bytes, or failed with this kind.
    ChannelReceived(Result<(), StreamErrorKind>),
    /// A read from the stream finished: the byte count, or the kind of failure.
    StreamRead(Result<usize, StreamErrorKind>),
}

/// The next step of a UDP bridge: data read on one side goes to the other; a stream that
/// reads nothing or a connection that ends on either side stops the bridge and cancels it;
/// other failures are logged; a cancelled bridge stops.
pub fn udp_bridge_step(event: UdpBridgeEvent) -> (out: BridgeAction)
    ensures
        out == (match event {
            UdpBridgeEvent::Cancelled => BridgeAction::Stop { close_other: false },
            UdpBridgeEvent::UdpRead(Ok(n)) => BridgeAction::WriteToStream(n),
            UdpBridgeEvent::UdpRead(Err(kind)) => if ends_connection(kind) {
                BridgeAction::Stop { close_other: true }
            } else {
                BridgeAction::Continue
            },
            UdpBridgeEvent::StreamRead(Ok(n)) => if n == 0 {
                BridgeAction::Stop { close_other: true }
            } else {
                BridgeAction::SendToOther(n)
            },
            UdpBridgeEvent::StreamRead(Err(kind)) => if ends_connection(kind) {
                BridgeAction::Stop { close_other: true }
            } else {
                BridgeAction::Continue
            },
        }),
{
    match event {
        UdpBridgeEvent::Cancelled => BridgeAction::Stop { close_other: false },
        UdpBridgeEvent::UdpRead(Ok(n)) => BridgeAction::WriteToStream(n),
        UdpBridgeEvent::UdpRead(Err(kind)) => {
            if is_connection_end(kind) {
                BridgeAction::Stop { close_other: true }
            } else {
                BridgeAction::Continue
            }
        },
        UdpBridgeEvent::StreamRead(Ok(n)) => {
            if n == 0 {
                BridgeAction::Stop { close_other: true }
            } else {
                BridgeAction::SendToOther(n)
            }
        },
        UdpBridgeEvent::StreamRead(Err(kind)) => {
            if is_connection_end(kind) {
                BridgeAction::Stop { close_other: true }
            } else {
                BridgeAction::Continue
            }
        },
    }
}

/// The next step of a channel bridge: what the channel gives goes to the stream and what the
/// stream gives goes to the channel; an aborted channel stops the bridge; a stream that reads
/// nothing or whose connection ends stops it and shuts the channel down; other failures are
/// logged.
pub fn channel_bridge_step(event: ChannelBridgeEvent) -> (out: BridgeAction)
    ensures
        out == (match event {
            ChannelBridgeEvent::ChannelReceived(Ok(())) => BridgeAction::WriteToStream(0),
            ChannelBridgeEvent::ChannelReceived(Err(kind)) => if kind
                == StreamErrorKind::ConnectionAborted {
                BridgeAction::Stop { close_other: false }
            } else {
                BridgeAction::Continue
            },
            ChannelBridgeEvent::StreamRead(Ok(n)) => if n == 0 {
                BridgeAction::Stop { close_other: true }
            } else {
                BridgeAction::SendToOther(n)
            },
            ChannelBridgeEvent::StreamRead(Err(kind)) => if ends_connection(kind) {
                BridgeAction::Stop { close_other: true }
            } else {
                BridgeAction::Continue
            },
        }),
{
    match event {
        ChannelBridgeEvent::ChannelReceived(Ok(())) => BridgeAction::WriteToStream(0),
        ChannelBridgeEvent::ChannelReceived(Err(kind)) => {
            match kind {
                StreamErrorKind::ConnectionAborted => BridgeAction::Stop { close_other: false },
                _ => BridgeAction::Continue,
            }
        },
        ChannelBridgeEvent::StreamRead(Ok(n)) => {
            if n == 0 {
                BridgeAction::Stop { close_other: true }
            } else {
                BridgeAction::SendToOther(n)
            }
        },
        ChannelBridgeEvent::StreamRead(Err(kind)) => {
            if is_connection_end(kind) {
                BridgeAction::Stop { close_other: true }
            } else {
                BridgeAction::Continue
            }
        },
    }
}

/// Whether a bridge between two streams ended well: it did when copying finished, and when
/// `tls_involved` also when it failed because a TLS side hit an unexpected end of file.
pub fn stream_bridge_succeeded(tls_involved: bool, failure: Option<StreamErrorKind>) -> (out: bool)
    ensures
        out == (match failure {
            None => true,
            Some(kind) => tls_involved && kind == StreamErrorKind::UnexpectedEof,
        }),
{
    match failure {
        None => true,
        Some(StreamErrorKind::UnexpectedEof) => tls_involved,
        Some(_) => false,
    }
}

} // verus!
