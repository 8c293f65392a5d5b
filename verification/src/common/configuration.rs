use vstd::prelude::*;

use super::validate::{Rule, Validatable, Validation};
use super::validate_rules::{file_check_outcome, FileMustExist};

verus! {

/// How a server endpoint encrypts its connections.
#[derive(Debug, Clone)]
pub enum ServerEncryption {
    Unencrypted,
    Tls { cert_path: String, key_path: String },
}

impl Validatable for ServerEncryption {
    open spec fn validation_outcome(
        &self,
        crumbs: Seq<Seq<char>>,
        before: Seq<Seq<char>>,
        after: Seq<Seq<char>>,
    ) -> bool {
        &&& self matches ServerEncryption::Unencrypted ==> after == before
        &&& self matches ServerEncryption::Tls { cert_path, key_path } ==> exists|mid: Seq<Seq<char>>|
            file_check_outcome(
                before,
                crumbs,
                "cert_path"@,
                cert_path@,
                mid,
            ) && file_check_outcome(
                mid,
                crumbs,
                "key_path"@,
                key_path@,
                after,
        )
    }

    fn validate(&self, result: &mut Validation)
        ensures
            self matches ServerEncryption::Unencrypted ==> final(result).messages() == old(result).messages(),
            self matches ServerEncryption::Tls { cert_path, key_path } ==> exists|mid: Seq<Seq<char>>|
                file_check_outcome(
                    old(result).messages(),
                    old(result).crumbs(),
                    "cert_path"@,
                    cert_path@,
                    mid,
                ) && file_check_outcome(
                    mid,
                    old(result).crumbs(),
                    "key_path"@,
                    key_path@,
                    final(result).messages(),
                ),
    {
        if let ServerEncryption::Tls { cert_path, key_path } = self {
            <FileMustExist as Rule>::validate("cert_path", cert_path, result);
            let ghost mid = result.messages();
            <FileMustExist as Rule>::validate("key_path", key_path, result);
            assert(file_check_outcome(mid, old(result).crumbs(), "key_path"@, key_path@, result.messages()));
        }
    }
}

} // verus!
