//! The cost model and the gas ledger.
//!
//! Gas is a deterministic, size-derived unit of compute cost. The cost of one
//! external call is a pure function of the statement length and the encoded
//! response length, so that identical inputs yield identical charges on every
//! node and in every test run, whichever backend executed the call.

use vstd::prelude::*;

verus! {

/// Flat gas charge applied to every query, before any per-byte charges.
pub const GAS_COST_QUERY_FLAT: u64 = 100_000;

/// Gas charged per byte of the query statement.
pub const GAS_COST_QUERY_REQUEST_MULTIPLIER: u64 = 0;

/// Gas charged per byte of the canonically encoded response.
pub const GAS_COST_QUERY_RESPONSE_MULTIPLIER: u64 = 100;

/// The charge owed before the backend is contacted: a flat cost plus a
/// per-byte charge on the request.
pub open spec fn pre_call_cost(flat: nat, request_multiplier: nat, request_len: nat) -> nat {
    flat + request_multiplier * request_len
}

/// The full charge for one call: the pre-call charge plus a per-byte charge
/// on the encoded response.
pub open spec fn call_cost(
    flat: nat,
    request_multiplier: nat,
    request_len: nat,
    response_multiplier: nat,
    response_len: nat,
) -> nat {
    pre_call_cost(flat, request_multiplier, request_len) + response_multiplier * response_len
}

/// The pre-call charge under the fixed query cost constants.
pub open spec fn query_pre_cost(request_len: nat) -> nat {
    pre_call_cost(
        GAS_COST_QUERY_FLAT as nat,
        GAS_COST_QUERY_REQUEST_MULTIPLIER as nat,
        request_len,
    )
}

/// The full charge under the fixed query cost constants.
pub open spec fn query_total_cost(request_len: nat, response_len: nat) -> nat {
    call_cost(
        GAS_COST_QUERY_FLAT as nat,
        GAS_COST_QUERY_REQUEST_MULTIPLIER as nat,
        request_len,
        GAS_COST_QUERY_RESPONSE_MULTIPLIER as nat,
        response_len,
    )
}

/// A charge clamped to what a 64-bit ledger can record. With the fixed
/// constants the clamp only matters for responses of more than about
/// `1.8e17` bytes, but the contracts account for it exactly.
pub open spec fn saturate_u64(n: nat) -> nat {
    if n > u64::MAX as nat {
        u64::MAX as nat
    } else {
        n
    }
}

/// Compute the pre-call charge for a statement of `request_len` bytes under
/// the fixed query cost constants.
pub fn pre_call_charge(request_len: u64) -> (r: u64)
    ensures
        r == query_pre_cost(request_len as nat),
{
    GAS_COST_QUERY_FLAT + GAS_COST_QUERY_REQUEST_MULTIPLIER * request_len
}

/// How much externally metered gas a single call consumed. Returned alongside
/// every call result, success or failure, so the interpreter's budget tracker
/// can deduct it either way.
#[derive(Copy, Clone, Debug, PartialEq, Eq)]
pub struct GasInfo {
    /// Gas consumed outside the interpreter's own instruction metering.
    pub externally_used: u64,
}

impl GasInfo {
    /// A ledger recording `amount` externally used gas.
    pub fn with_externally_used(amount: u64) -> (r: GasInfo)
        ensures
            r.externally_used == amount,
    {
        GasInfo { externally_used: amount }
    }
}

} // verus!
