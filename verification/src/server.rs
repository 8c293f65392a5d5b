use vstd::prelude::*;

use crate::configuration::ServiceDefinition;
use crate::http::HttpServerConfig;

verus! {

/// The settings a service is started with: only HTTP services can be started; for any other
/// the error text.
pub fn startable_service(service: ServiceDefinition) -> (out: Result<HttpServerConfig, &'static str>)
    ensures
        match service {
            ServiceDefinition::Http(config) => out == Ok::<HttpServerConfig, &'static str>(config),
            _ => out matches Err(text) && text@ == "Unsupported server type."@,
        },
{
    match service {
        ServiceDefinition::Http(config) => Ok(config),
        _ => Err("Unsupported server type."),
    }
}

} // verus!
