//! The deterministic test backend.
//!
//! A fixture-based implementation of the backend capability for the
//! interpreter's test harness: it answers every in-budget read with the same
//! canned payload and applies exactly the same cost model as the live
//! implementation, so gas figures are reproducible across test runs.
//!
//! A `MockApi` may instead be constructed in failing mode with a fixed error
//! message. Such a backend short-circuits every call with an unclassified
//! error carrying that message, whatever the statement or ceiling: the
//! fixture is never consulted and no checkpoint beyond the pre-call charge is
//! applied, so the ledger still records the pre-call cost.

use vstd::prelude::*;
use vstd::string::StringSliceAdditionalSpecFns;

use crate::backend::{charge_response, valid_read_result, Backend, BackendApi};
use crate::binary::{canonical_encoding, to_binary};
use crate::context::{BlockInfo, Env};
use crate::errors::{BackendError, BackendResult};
use crate::gas::{pre_call_charge, query_pre_cost, query_total_cost, saturate_u64, GasInfo};

verus! {

/// The canned fixture the test backend answers with: a small JSON document,
/// standing in for a query response.
pub open spec fn mock_response() -> Seq<u8> {
    seq![
        123u8,
        34u8,
        100u8,
        97u8,
        116u8,
        97u8,
        34u8,
        58u8,
        91u8,
        49u8,
        44u8,
        50u8,
        44u8,
        51u8,
        93u8,
        125u8,
    ]
}

/// Build the fixture bytes: the JSON text `{"data":[1,2,3]}`.
fn mock_response_vec() -> (r: Vec<u8>)
    ensures
        r@ == mock_response(),
{
    let mut v: Vec<u8> = Vec::new();
    v.push(123);
    v.push(34);
    v.push(100);
    v.push(97);
    v.push(116);
    v.push(97);
    v.push(34);
    v.push(58);
    v.push(91);
    v.push(49);
    v.push(44);
    v.push(50);
    v.push(44);
    v.push(51);
    v.push(93);
    v.push(125);
    proof {
        assert(v@ =~= mock_response());
    }
    v
}

/// The deterministic test backend: answers from a fixed fixture, or, when
/// constructed in failing mode, fails every call with a fixed message.
#[derive(Copy, Clone)]
pub struct MockApi {
    /// When set, every call fails with `BackendError::Unknown` carrying this
    /// message.
    backend_error: Option<&'static str>,
}

impl MockApi {
    /// The message this backend is forced to fail with, if any.
    pub closed spec fn forced_failure(&self) -> Option<Seq<char>> {
        match self.backend_error {
            Some(m) => Some(m@),
            None => None,
        }
    }

    /// A backend whose every call fails with `BackendError::Unknown`
    /// carrying `backend_error`.
    pub fn new_failing(backend_error: &'static str) -> (r: Self)
        ensures
            r.forced_failure() == Some(backend_error@),
    {
        MockApi { backend_error: Some(backend_error) }
    }
}

impl Default for MockApi {
    /// The fixture-answering backend, with no forced failure.
    fn default() -> (r: Self)
        ensures
            r.forced_failure() is None,
    {
        MockApi { backend_error: None }
    }
}

/// How the test backend's `read` relates its inputs to its result: a forced
/// failure is returned as-is at the pre-call charge; otherwise the fixed
/// fixture is encoded and settled against the two cost checkpoints.
pub open spec fn mock_read_result(
    api: MockApi,
    request_len: nat,
    gas_limit: u64,
    r: BackendResult,
) -> bool {
    let pre = query_pre_cost(request_len);
    match api.forced_failure() {
        Some(m) => {
            &&& r.0 matches Err(BackendError::Unknown { msg }) && msg@ == m
            &&& r.1.externally_used == pre
        },
        None => {
            if pre > gas_limit {
                &&& r.0 matches Err(e) && e is OutOfGas
                &&& r.1.externally_used == pre
            } else {
                let resp = canonical_encoding(mock_response());
                let total = query_total_cost(request_len, resp.len());
                if total > gas_limit {
                    &&& r.0 matches Err(e) && e is OutOfGas
                    &&& r.1.externally_used == saturate_u64(total)
                } else {
                    &&& r.0 matches Ok(p) && p@ == resp
                    &&& r.1.externally_used == total
                }
            }
        },
    }
}

impl BackendApi for MockApi {
    open spec fn read_spec(&self, request_len: nat, gas_limit: u64, r: BackendResult) -> bool {
        mock_read_result(*self, request_len, gas_limit, r)
    }

    fn read(&self, statement: &str, gas_limit: u64) -> (r: BackendResult) {
        let stmt_bytes = statement.as_bytes();
        let pre = pre_call_charge(stmt_bytes.len() as u64);
        match self.backend_error {
            Some(m) => {
                return (
                    Err(BackendError::unknown(m.to_owned())),
                    GasInfo::with_externally_used(pre),
                );
            },
            None => {},
        }
        if pre > gas_limit {
            return (Err(BackendError::out_of_gas()), GasInfo::with_externally_used(pre));
        }
        let fixture = mock_response_vec();
        let payload = to_binary(fixture.as_slice());
        charge_response(payload, pre, gas_limit)
    }
}

/// All external requirements of the interpreter's test harness, bundled as
/// one backend value around the deterministic test implementation.
pub fn mock_backend() -> (b: Backend<MockApi>)
    ensures
        b.api.forced_failure() is None,
{
    Backend { api: MockApi::default() }
}

/// A default environment with a fixed block height and chain identifier,
/// usable as-is by most guest invocations in tests.
pub fn mock_env() -> (e: Env)
    ensures
        e.block.height == 12345,
        e.block.chain_id@ == "yoyo"@,
{
    Env { block: BlockInfo { height: 12_345, chain_id: "yoyo".to_owned() } }
}

} // verus!
