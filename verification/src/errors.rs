//! The error taxonomy of the bridge.
//!
//! Every failed call is classified into exactly one of three kinds, all of
//! them guest-visible: budget exhaustion, a well-formed failure surfaced by a
//! collaborator, or an unclassified backend failure. None of them aborts the
//! host process, and none carries a partial result.

use vstd::prelude::*;

use crate::binary::Binary;
use crate::gas::GasInfo;

verus! {

/// Why one call through the bridge failed.
#[derive(Clone, Debug, PartialEq, Eq)]
pub enum BackendError {
    /// A cost checkpoint exceeded the caller's gas ceiling.
    OutOfGas,
    /// A well-formed failure surfaced by a collaborator, carrying the
    /// collaborator's message verbatim.
    UserErr { msg: String },
    /// A collaborator failure that fits no other kind; still carries a
    /// message, never a bare empty failure.
    Unknown { msg: String },
}

impl BackendError {
    /// The budget-exhaustion failure.
    pub fn out_of_gas() -> (r: BackendError)
        ensures
            r is OutOfGas,
    {
        BackendError::OutOfGas
    }

    /// A well-formed collaborator failure carrying `msg`.
    pub fn user_err(msg: String) -> (r: BackendError)
        ensures
            r matches BackendError::UserErr { msg: m } && m@ == msg@,
    {
        BackendError::UserErr { msg }
    }

    /// An unclassified collaborator failure carrying `msg`.
    pub fn unknown(msg: String) -> (r: BackendError)
        ensures
            r matches BackendError::Unknown { msg: m } && m@ == msg@,
    {
        BackendError::Unknown { msg }
    }
}

/// The outcome of one capability invocation: a payload or a classified
/// failure, paired with the gas ledger of the call. The ledger is meaningful
/// even when the outcome is a failure: gas already spent is never discarded.
pub type BackendResult = (Result<Binary, BackendError>, GasInfo);

} // verus!
