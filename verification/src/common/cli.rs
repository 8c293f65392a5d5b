use vstd::prelude::*;

use uuid::Uuid;

verus! {

/// The uuid crate's `Uuid`, carried as an opaque value.
#[verifier::external_type_specification]
#[verifier::external_body]
pub struct ExUuid(Uuid);

/// `Uuid::clone`: the uuid crate derives `Clone` and `Copy` for `Uuid`, so a clone is the
/// same value.
pub assume_specification[ <Uuid as std::clone::Clone>::clone ](id: &Uuid) -> (copy: Uuid)
    ensures
        copy == *id,
;

/// The command that the program runs.
#[derive(Debug)]
pub enum Commands {
    Init { command: Option<InitCommands> },
    Server { config: Option<String> },
    Tunnel { config: Option<String>, verbose: bool },
    Monitor { command: MonitorCommands, config: Option<String> },
}

/// What the init command writes.
#[derive(Debug, Clone)]
pub enum InitCommands {
    All,
    Tunnel { server: Option<String>, tls: bool, ca: Option<String>, key: Option<String> },
    Server,
}

/// What the monitor command asks.
#[derive(Debug, Clone)]
pub enum MonitorCommands {
    SystemInfo,
    ListEndpoints,
    ListTunnels,
    GetTunnel { id: Uuid },
    DisconnectTunnel { id: Uuid },
    ListClients,
    GetClient { id: Uuid },
    ListLinks,
    GetLink { id: Uuid },
    DisconnectLink { id: Uuid },
}

} // verus!
