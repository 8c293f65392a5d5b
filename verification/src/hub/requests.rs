use vstd::prelude::*;

verus! {

/// What the hub can ask a service.
#[derive(Debug, Clone, Copy, PartialEq, Eq)]
pub enum ServiceRequestData {
    GetName,
}

/// What a service answers the hub.
#[derive(Debug, Clone)]
pub enum ServiceResponse {
    Name(String),
}

} // verus!
