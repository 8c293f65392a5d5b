use vstd::prelude::*;

verus! {

/// Whether a client whose last activity was `elapsed_secs` seconds ago has timed out.
pub fn is_expired(elapsed_secs: u64, max_timeout: u64) -> (out: bool)
    ensures
        out == (elapsed_secs >= max_timeout),
{
    elapsed_secs >= max_timeout
}

/// Whether a client is still served: it has not timed out, its channel is open and it was not
/// cancelled.
pub fn is_active(elapsed_secs: u64, max_timeout: u64, channel_closed: bool, cancelled: bool) -> (out:
    bool)
    ensures
        out == (elapsed_secs < max_timeout && !channel_closed && !cancelled),
{
    !is_expired(elapsed_secs, max_timeout) && !channel_closed && !cancelled
}

/// Where a datagram from some address goes.
#[derive(Debug, Clone, Copy, PartialEq, Eq)]
pub enum DatagramRoute {
    /// To the active client of that address.
    Forward,
    /// The client of that address is no longer active: close it, forget it and open a new one.
    Reopen,
    /// No client has that address: open one.
    Open,
}

/// Where a datagram goes, from whether a client is known for its address and whether that
/// client is active.
pub fn route_datagram(known: bool, active: bool) -> (out: DatagramRoute)
    ensures
        out == (if !known {
            DatagramRoute::Open
        } else if active {
            DatagramRoute::Forward
        } else {
            DatagramRoute::Reopen
        }),
{
    if !known {
        DatagramRoute::Open
    } else if active {
        DatagramRoute::Forward
    } else {
        DatagramRoute::Reopen
    }
}

} // verus!
