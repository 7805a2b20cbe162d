//! Content digest used for provenance anchors.
//!
//! The 32-byte cryptographic digest itself is computed by the `blake3` crate;
//! this module gives its result a name that the rest of the library's
//! contracts can speak about.

use vstd::prelude::*;

verus! {

/// The 32-byte BLAKE3 digest of a byte sequence. The digest is a pure
/// function of the bytes alone, identical on every machine and in every
/// process; nothing further is assumed about its value.
pub uninterp spec fn blake3_of(data: Seq<u8>) -> Seq<u8>;

/// Relies on `blake3::hash`: the digest of the input bytes, always 32 bytes,
/// depending on the input bytes alone.
#[verifier::external_body]
pub fn content_hash32(data: &[u8]) -> (r: [u8; 32])
    ensures
        r@ == blake3_of(data@),
{
    *blake3::hash(data).as_bytes()
}

} // verus!
