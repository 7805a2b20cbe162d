//! Evidence anchors tying an output back to its input bytes.
//!
//! An [`EvidenceHandle`] carries the content digest truncated to eight bytes,
//! a schema version and the source identifier. The truncated digest is always
//! a prefix of the frame's full content digest.

use vstd::prelude::*;
use vstd::string::StringExecFns;

use crate::constants::EVIDENCE_SCHEMA_VER;
use crate::digest::blake3_of;
use crate::digest::content_hash32;

verus! {

/// What the evidence digest represents.
#[derive(Clone, Copy, Debug, PartialEq, Eq, Structural, Hash)]
pub enum EvidenceKind {
    /// The digest of the ingested content bytes.
    IngestContent,
}

/// Evidence that anchors an output to its input bytes.
#[derive(Clone, Debug)]
pub struct EvidenceHandle {
    /// What the digest represents.
    pub kind: EvidenceKind,
    /// Schema version of this handle.
    pub schema_ver: u16,
    /// Content digest truncated to its first eight bytes.
    pub hash8: [u8; 8],
    /// Provenance tag (path, URL, device name).
    pub source_id: String,
}

impl EvidenceHandle {
    /// Builder for the common case: evidence for ingested bytes.
    pub fn new_ingest(source_id: &str, bytes: &[u8]) -> (r: EvidenceHandle)
        ensures
            r.kind == EvidenceKind::IngestContent,
            r.schema_ver == EVIDENCE_SCHEMA_VER,
            r.hash8@ == blake3_of(bytes@).take(8),
            r.source_id@ == source_id@,
    {
        EvidenceHandle {
            kind: EvidenceKind::IngestContent,
            schema_ver: EVIDENCE_SCHEMA_VER,
            hash8: short_hash_8(bytes),
            source_id: String::from_str(source_id),
        }
    }
}

/// The content digest of the input bytes, truncated to eight bytes.
pub fn short_hash_8(bytes: &[u8]) -> (r: [u8; 8])
    ensures
        r@ == blake3_of(bytes@).take(8),
{
    let full = content_hash32(bytes);
    let out: [u8; 8] = [full[0], full[1], full[2], full[3], full[4], full[5], full[6], full[7]];
    proof {
        assert(out@ =~= blake3_of(bytes@).take(8));
    }
    out
}

/// The little-endian integer value of eight bytes.
pub open spec fn spec_le_u64(b: Seq<u8>) -> int
    recommends
        b.len() == 8,
{
    b[0] + b[1] * 0x100 + b[2] * 0x1_0000 + b[3] * 0x100_0000 + b[4] * 0x1_0000_0000 + b[5]
        * 0x100_0000_0000 + b[6] * 0x1_0000_0000_0000 + b[7] * 0x100_0000_0000_0000
}

/// The truncated content digest as a little-endian `u64`, for compact keys.
pub fn short_hash_u64(bytes: &[u8]) -> (r: u64)
    ensures
        r == spec_le_u64(blake3_of(bytes@).take(8)),
{
    let h = short_hash_8(bytes);
    (h[0] as u64) + (h[1] as u64) * 0x100 + (h[2] as u64) * 0x1_0000 + (h[3] as u64) * 0x100_0000
        + (h[4] as u64) * 0x1_0000_0000 + (h[5] as u64) * 0x100_0000_0000 + (h[6] as u64)
        * 0x1_0000_0000_0000 + (h[7] as u64) * 0x100_0000_0000_0000
}

} // verus!
