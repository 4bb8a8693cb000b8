//! The ambient execution context supplied to guest code.
//!
//! An `Env` is an immutable snapshot constructed by the interpreter once per
//! guest invocation and consumed read-only here: the bridge never derives or
//! mutates it.

use vstd::prelude::*;

verus! {

/// The block the current guest invocation executes against.
#[derive(Clone, Debug)]
pub struct BlockInfo {
    /// Height of the block.
    pub height: u64,
    /// Identifier of the chain the block belongs to.
    pub chain_id: String,
}

/// Ambient context for one guest invocation.
#[derive(Clone, Debug)]
pub struct Env {
    /// The block snapshot the invocation sees.
    pub block: BlockInfo,
}

} // verus!
