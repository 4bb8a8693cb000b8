//! The backend capability and the two-checkpoint charging algorithm.
//!
//! A backend executes one read statement under a gas ceiling and returns the
//! outcome paired with the gas ledger of the call. Cost is checked at two
//! checkpoints: before the backend is contacted (a charge computed from the
//! statement length alone) and after it has answered (a further charge
//! computed from the encoded response length). A call that cannot fit its
//! pre-call charge in the ceiling fails without the backend ever being
//! contacted; a call whose cumulative charge exceeds the ceiling after the
//! answer fails too, but is still charged for the work already performed.
//!
//! The live backend's collaborator performs network work that cannot run
//! here, so its call sequence is split: `pre_call_check` decides whether the
//! collaborator may be contacted at all, and `complete_read` turns the
//! collaborator's outcome into the final result. Everything the bridge
//! decides is in those two functions; the caller only performs the query in
//! between and hands the outcome back as plain values.

use vstd::prelude::*;
use vstd::string::StringSliceAdditionalSpecFns;

use crate::binary::{canonical_encoding, encodable, to_binary, Binary};
use crate::errors::{BackendError, BackendResult};
use crate::gas::{
    pre_call_charge, query_pre_cost, query_total_cost, saturate_u64, GasInfo,
    GAS_COST_QUERY_RESPONSE_MULTIPLIER,
};

verus! {

/// What every backend, test or live, guarantees of one `read` call: the
/// ledger records at least the pre-call charge, and a successful call is
/// charged exactly the two-checkpoint cost of its sizes, within the ceiling.
pub open spec fn valid_read_result(request_len: nat, gas_limit: u64, r: BackendResult) -> bool {
    &&& r.1.externally_used >= query_pre_cost(request_len)
    &&& (r.0 matches Ok(payload) ==> {
        &&& r.1.externally_used == query_total_cost(request_len, payload@.len())
        &&& r.1.externally_used <= gas_limit
    })
}

/// The capability a guest is permitted to invoke on the host: execute one
/// read statement under a gas ceiling. All implementations are
/// interchangeable; guest and interpreter code depend only on this trait.
pub trait BackendApi: Sized {
    /// How this backend's `read` relates its inputs to its result.
    spec fn read_spec(&self, request_len: nat, gas_limit: u64, r: BackendResult) -> bool;

    /// Execute `statement` under the ceiling `gas_limit`. Returns a payload
    /// or a classified failure, never both and never neither, paired with
    /// the gas ledger of the call, which is meaningful either way.
    fn read(&self, statement: &str, gas_limit: u64) -> (r: BackendResult)
        ensures
            self.read_spec(statement.spec_bytes().len(), gas_limit, r),
            valid_read_result(statement.spec_bytes().len(), gas_limit, r),
    ;
}

/// A set of backend capabilities handed to the interpreter as one value.
pub struct Backend<A: BackendApi> {
    /// The query capability.
    pub api: A,
}

/// How the final result of a live read relates to the collaborator's
/// outcome: a collaborator failure becomes a user-facing error charged the
/// pre-call cost; a response is encoded canonically and settled against the
/// post-call checkpoint.
pub open spec fn live_read_result(
    request_len: nat,
    outcome: Result<Seq<u8>, Seq<char>>,
    gas_limit: u64,
    r: BackendResult,
) -> bool {
    let pre = query_pre_cost(request_len);
    match outcome {
        Err(m) => {
            &&& r.0 matches Err(BackendError::UserErr { msg }) && msg@ == m
            &&& r.1.externally_used == pre
        },
        Ok(bytes) => {
            let resp = canonical_encoding(bytes);
            let total = query_total_cost(request_len, resp.len());
            if total > gas_limit {
                &&& r.0 matches Err(e) && e is OutOfGas
                &&& r.1.externally_used == saturate_u64(total)
            } else {
                &&& r.0 matches Ok(p) && p@ == resp
                &&& r.1.externally_used == total
            }
        },
    }
}

/// The pre-call checkpoint: charge for the statement alone and decide
/// whether the backend may be contacted. On `Err` the backend must not be
/// invoked; the ledger already records the charge either way.
pub fn pre_call_check(statement: &str, gas_limit: u64) -> (r: (Result<(), BackendError>, GasInfo))
    ensures
        r.1.externally_used == query_pre_cost(statement.spec_bytes().len()),
        r.0 is Ok <==> query_pre_cost(statement.spec_bytes().len()) <= gas_limit,
        r.0 matches Err(e) ==> e is OutOfGas,
{
    let bytes = statement.as_bytes();
    let pre = pre_call_charge(bytes.len() as u64);
    if pre > gas_limit {
        (Err(BackendError::out_of_gas()), GasInfo::with_externally_used(pre))
    } else {
        (Ok(()), GasInfo::with_externally_used(pre))
    }
}

/// The post-call checkpoint: settle a payload against the remaining budget.
/// A cumulative charge within the ceiling returns the payload; one beyond it
/// fails with out-of-gas but still records the full charge, clamped to what
/// the ledger can hold.
pub fn charge_response(payload: Binary, pre: u64, gas_limit: u64) -> (r: BackendResult)
    requires
        pre <= gas_limit,
    ensures
        ({
            let total = pre + GAS_COST_QUERY_RESPONSE_MULTIPLIER * payload@.len();
            if total > gas_limit {
                &&& r.0 matches Err(e) && e is OutOfGas
                &&& r.1.externally_used == saturate_u64(total as nat)
            } else {
                &&& r.0 matches Ok(p) && p == payload
                &&& r.1.externally_used == total
            }
        }),
{
    let resp_len: u64 = payload.len() as u64;
    let total_wide: u128 = (pre as u128) + (GAS_COST_QUERY_RESPONSE_MULTIPLIER as u128) * (
    resp_len as u128);
    if total_wide > (gas_limit as u128) {
        let used: u64 = if total_wide > (u64::MAX as u128) {
            u64::MAX
        } else {
            total_wide as u64
        };
        (Err(BackendError::out_of_gas()), GasInfo::with_externally_used(used))
    } else {
        (Ok(payload), GasInfo::with_externally_used(total_wide as u64))
    }
}

/// Turn the live collaborator's outcome into the final call result. The
/// caller has already passed `pre_call_check`, performed the query, and
/// hands the response (or the collaborator's message) over as plain values.
pub fn complete_read(statement: &str, outcome: Result<Vec<u8>, String>, gas_limit: u64) -> (r:
    BackendResult)
    requires
        query_pre_cost(statement.spec_bytes().len()) <= gas_limit,
        outcome matches Ok(bytes) ==> encodable(bytes@.len()),
    ensures
        live_read_result(
            statement.spec_bytes().len(),
            match outcome {
                Ok(bytes) => Ok(bytes@),
                Err(m) => Err(m@),
            },
            gas_limit,
            r,
        ),
{
    let stmt_bytes = statement.as_bytes();
    let pre = pre_call_charge(stmt_bytes.len() as u64);
    match outcome {
        Err(m) => (Err(BackendError::user_err(m)), GasInfo::with_externally_used(pre)),
        Ok(bytes) => {
            let payload = to_binary(bytes.as_slice());
            charge_response(payload, pre, gas_limit)
        },
    }
}

} // verus!
