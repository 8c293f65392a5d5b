use vstd::prelude::*;

verus! {

/// A channel request that names the type of its response.
pub trait ChannelRequestResponse {
    type ResponseMessage;
}

} // verus!
