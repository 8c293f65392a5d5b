use vstd::prelude::*;

use super::validate::{Rule, Validatable, Validation};
use super::validate_rules::{file_check_outcome, FileMustExist};

verus! {

/// How a client encrypts its connection to a server.
#[derive(Clone, Debug, PartialEq)]
pub enum ClientEncryption {
    Tls { ca_path: Option<String> },
    Unencrypted,
}

impl From<Option<ClientEncryption>> for ClientEncryption {
    fn from(encryption: Option<ClientEncryption>) -> (out: Self) {
        match encryption {
            Some(encryption) => encryption,
            None => ClientEncryption::Unencrypted,
        }
    }
}

impl vstd::std_specs::convert::FromSpecImpl<Option<ClientEncryption>> for ClientEncryption {
    open spec fn obeys_from_spec() -> bool {
        true
    }

    open spec fn from_spec(encryption: Option<ClientEncryption>) -> Self {
        match encryption {
            Some(encryption) => encryption,
            None => ClientEncryption::Unencrypted,
        }
    }
}

impl Validatable for ClientEncryption {
    open spec fn validation_outcome(
        &self,
        crumbs: Seq<Seq<char>>,
        before: Seq<Seq<char>>,
        after: Seq<Seq<char>>,
    ) -> bool {
        match self {
            ClientEncryption::Tls { ca_path: Some(cert) } => file_check_outcome(
                before,
                crumbs,
                "ca_path"@,
                cert@,
                after,
            ),
            _ => after == before,
        }
    }

    fn validate(&self, result: &mut Validation)
        ensures
            match self {
                ClientEncryption::Tls { ca_path: Some(cert) } => file_check_outcome(
                    old(result).messages(),
                    old(result).crumbs(),
                    "ca_path"@,
                    cert@,
                    final(result).messages(),
                ),
                _ => final(result).messages() == old(result).messages(),
            },
    {
        if let Self::Tls { ca_path } = self {
            if let Some(cert) = ca_path {
                <FileMustExist as Rule>::validate("ca_path", cert, result);
            }
        }
    }
}

} // verus!
