//! Gas-metered host-call bridge between a sandboxed guest and an external
//! read-only query service.
//!
//! Every call a guest makes through the bridge is charged a deterministic,
//! size-derived amount of gas at two checkpoints: a pre-call charge computed
//! from the statement length, and a post-call charge computed from the length
//! of the canonically encoded response. The charge is returned alongside the
//! call's outcome so the interpreter above can deduct it whether the call
//! succeeded or failed.

mod backend;
mod binary;
mod context;
mod errors;
mod gas;
mod laws;
mod mock;

pub use backend::{
    charge_response, complete_read, live_read_result, pre_call_check, valid_read_result, Backend,
    BackendApi,
};
pub use binary::{canonical_encoding, encodable, to_binary, Binary};
pub use context::{BlockInfo, Env};
pub use errors::{BackendError, BackendResult};
pub use gas::{
    call_cost, pre_call_charge, pre_call_cost, query_pre_cost, query_total_cost, saturate_u64,
    GasInfo, GAS_COST_QUERY_FLAT, GAS_COST_QUERY_REQUEST_MULTIPLIER,
    GAS_COST_QUERY_RESPONSE_MULTIPLIER,
};
pub use laws::{lemma_gas_backend_independent, lemma_mock_read_idempotent};
pub use mock::{mock_backend, mock_env, mock_read_result, mock_response, MockApi};
