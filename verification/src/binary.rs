//! The canonical byte payload handed back to guest code.
//!
//! A `Binary` is produced by canonically encoding a collaborator's response;
//! the bridge never interprets its contents. The encoding itself is delegated
//! to an outside crate and is only named here: all the bridge relies on is
//! that it is a deterministic function of the input bytes with a known output
//! length, which is what the gas charge is computed from.

use vstd::prelude::*;

verus! {

/// An opaque canonical byte buffer returned to guest code.
#[derive(Clone, Debug, PartialEq, Eq)]
pub struct Binary(pub Vec<u8>);

impl View for Binary {
    type V = Seq<u8>;

    open spec fn view(&self) -> Seq<u8> {
        self.0@
    }
}

impl Binary {
    /// The number of bytes in the payload.
    pub fn len(&self) -> (n: usize)
        ensures
            n == self@.len(),
    {
        self.0.len()
    }

    /// The payload's bytes.
    pub fn as_slice(&self) -> (s: &[u8])
        ensures
            s@ == self@,
    {
        self.0.as_slice()
    }
}

/// The canonical encoding of a byte sequence, as computed by the outside
/// encoder. Deterministic: the same bytes give the same encoding in every
/// process and on every machine.
pub uninterp spec fn canonical_encoding(data: Seq<u8>) -> Seq<u8>;

/// Whether a buffer of `n` bytes can be canonically encoded at all: the
/// encoded length must itself fit in `usize`.
pub open spec fn encodable(n: nat) -> bool {
    4 * ((n + 2) / 3) <= usize::MAX
}

/// Relies on base64's `Engine::encode` with the standard alphabet and
/// padding: the result is a deterministic function of the input bytes alone,
/// its length is `4 * ceil(n / 3)`, and the call returns normally whenever
/// that length fits in `usize`.
#[verifier::external_body]
fn encode_base64(data: &[u8]) -> (r: Vec<u8>)
    requires
        encodable(data@.len()),
    ensures
        r@ == canonical_encoding(data@),
        r@.len() == 4 * ((data@.len() + 2) / 3),
{
    base64::Engine::encode(&base64::engine::general_purpose::STANDARD, data).into_bytes()
}

/// Canonically encode `data` into a payload fit to cross the guest/host
/// boundary.
pub fn to_binary(data: &[u8]) -> (r: Binary)
    requires
        encodable(data@.len()),
    ensures
        r@ == canonical_encoding(data@),
        r@.len() == 4 * ((data@.len() + 2) / 3),
{
    Binary(encode_base64(data))
}

} // verus!
