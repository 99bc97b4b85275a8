//! Error taxonomy of the client protocol.

use vstd::prelude::*;

verus! {

/// Every failure the client surfaces. `MalformedState` marks a state image
/// that does not decode; `AccountNotFound` and `OwnershipMismatch` are the
/// two conditions that trigger re-provisioning rather than an abort;
/// the rest are fatal to the run.
#[derive(Clone, Copy, Debug, PartialEq, Eq, Structural)]
pub enum VendingError {
    MalformedState,
    AccountNotFound,
    OwnershipMismatch,
    ProvisioningFailure,
    SubmissionError,
    WalletLoadError,
}

/// The diagnostic line of each failure.
pub open spec fn spec_describe(e: VendingError) -> Seq<char> {
    match e {
        VendingError::MalformedState => "the state image did not decode"@,
        VendingError::AccountNotFound => "the ledger does not know the account"@,
        VendingError::OwnershipMismatch => "the account belongs to another program"@,
        VendingError::ProvisioningFailure => "provisioning the state account failed"@,
        VendingError::SubmissionError => "the submission was rejected"@,
        VendingError::WalletLoadError => "the wallet file did not load"@,
    }
}

impl VendingError {
    /// A short diagnostic line for the failure.
    pub fn describe(&self) -> (r: &'static str)
        ensures
            r@ == spec_describe(*self),
    {
        match self {
            VendingError::MalformedState => "the state image did not decode",
            VendingError::AccountNotFound => "the ledger does not know the account",
            VendingError::OwnershipMismatch => "the account belongs to another program",
            VendingError::ProvisioningFailure => "provisioning the state account failed",
            VendingError::SubmissionError => "the submission was rejected",
            VendingError::WalletLoadError => "the wallet file did not load",
        }
    }
}

} // verus!
