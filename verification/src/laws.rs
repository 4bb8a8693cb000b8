//! Properties of the bridge that hold across functions, proved once and for
//! all from the contracts of the backends.

use vstd::prelude::*;

use crate::backend::live_read_result;
use crate::binary::canonical_encoding;
use crate::errors::BackendResult;
use crate::gas::{query_pre_cost, query_total_cost};
use crate::mock::{mock_read_result, mock_response, MockApi};

verus! {

/// Gas accounting is backend-independent: a test-backend call and a live
/// call that see the same statement length and the same ceiling, and whose
/// responses encode to the same length, report identical externally used
/// gas, whether the post-call checkpoint passes or not.
pub proof fn lemma_gas_backend_independent(
    api: MockApi,
    request_len: nat,
    gas_limit: u64,
    response: Seq<u8>,
    r_mock: BackendResult,
    r_live: BackendResult,
)
    requires
        api.forced_failure() is None,
        query_pre_cost(request_len) <= gas_limit,
        mock_read_result(api, request_len, gas_limit, r_mock),
        live_read_result(request_len, Ok(response), gas_limit, r_live),
        canonical_encoding(response).len() == canonical_encoding(mock_response()).len(),
    ensures
        r_mock.1.externally_used == r_live.1.externally_used,
{
}

/// Idempotence: repeated identical calls against the deterministic test
/// backend with a sufficient ceiling return the same payload and the same
/// gas figure.
pub proof fn lemma_mock_read_idempotent(
    api: MockApi,
    request_len: nat,
    gas_limit: u64,
    r1: BackendResult,
    r2: BackendResult,
)
    requires
        api.forced_failure() is None,
        mock_read_result(api, request_len, gas_limit, r1),
        mock_read_result(api, request_len, gas_limit, r2),
        query_total_cost(request_len, canonical_encoding(mock_response()).len()) <= gas_limit,
    ensures
        r1.0 is Ok && r2.0 is Ok,
        r1.0->Ok_0@ == r2.0->Ok_0@,
        r1.1.externally_used == r2.1.externally_used,
{
}

} // verus!
