//! Structured QA metadata kept out of the default output path.
//!
//! A [`Sidecar`] records what an adapter actually computed — shape, the
//! modality-specific transform parameters, backend identity — together with a
//! mirror of the evidence digest. Agents never see it unless the caller's
//! inspection policy explicitly allows it.

use vstd::prelude::*;

use crate::determinism::EmbeddingsShape;

verus! {

/// Numeric element type of the embeddings, with a fixed cross-boundary
/// numbering (append-only, never reordered).
#[derive(Clone, Copy, Debug, PartialEq, Eq, Structural)]
pub enum DType {
    /// 32-bit IEEE float.
    F32,
    /// 16-bit IEEE float.
    F16,
    /// bfloat16.
    BF16,
}

impl DType {
    /// The fixed cross-boundary number of this dtype.
    pub open spec fn spec_code(self) -> u8 {
        match self {
            DType::F32 => 0,
            DType::F16 => 1,
            DType::BF16 => 2,
        }
    }

    /// Exec mirror of [`DType::spec_code`].
    #[verifier::when_used_as_spec(spec_code)]
    pub fn code(self) -> (c: u8)
        ensures
            c == self.spec_code(),
    {
        match self {
            DType::F32 => 0,
            DType::F16 => 1,
            DType::BF16 => 2,
        }
    }
}

/// Memory layout of the embeddings buffer, with a fixed cross-boundary
/// numbering (append-only).
#[derive(Clone, Copy, Debug, PartialEq, Eq, Structural)]
pub enum Layout {
    /// Row-major, the only layout produced today.
    RowMajor,
}

impl Layout {
    /// The fixed cross-boundary number of this layout.
    pub open spec fn spec_code(self) -> u8 {
        match self {
            Layout::RowMajor => 0,
        }
    }

    /// Exec mirror of [`Layout::spec_code`].
    #[verifier::when_used_as_spec(spec_code)]
    pub fn code(self) -> (c: u8)
        ensures
            c == self.spec_code(),
    {
        match self {
            Layout::RowMajor => 0,
        }
    }
}

/// Backend identity stamped into diagnostics for determinism audits.
#[derive(Clone, Copy, Debug)]
pub struct BackendInfo {
    /// Device name: "cpu", "cuda", "metal", ...
    pub device: &'static str,
    /// Element type of the embeddings.
    pub dtype: DType,
    /// Memory layout of the embeddings.
    pub layout: Layout,
    /// CPU logical threads used.
    pub threads: u16,
}

/// Text normalisation applied by the text adapter.
#[derive(Clone, Copy, Debug)]
pub struct TextSidecar {
    /// Unicode NFC normalisation was applied.
    pub norm_nfc: bool,
    /// Newlines were normalised to LF.
    pub newline_lf: bool,
}

/// Audio transform parameters used by the audio adapter.
#[derive(Clone, Copy, Debug)]
pub struct AudioSidecar {
    /// Sample rate in hertz.
    pub sr: u32,
    /// Analysis window length.
    pub win: u16,
    /// Hop length.
    pub hop: u16,
    /// Mel band count.
    pub mel: u8,
    /// Patch length along time.
    pub patch_t: u8,
}

/// Vision patch grid details.
#[derive(Clone, Copy, Debug)]
pub struct VisionSidecar {
    /// Patch edge in pixels.
    pub patch: u16,
    /// Patch grid (rows, columns).
    pub grid: (u16, u16),
    /// EXIF orientation was applied.
    pub exif_applied: bool,
    /// The source was animated.
    pub animated: bool,
}

/// Binary adapter stride and coverage.
#[derive(Clone, Copy, Debug)]
pub struct BinarySidecar {
    /// Byte stride.
    pub stride: u16,
    /// Total bytes covered.
    pub length: u64,
    /// Container format hint, when one was sniffed.
    pub container_hint: Option<&'static str>,
}

/// Human/QA metadata. The agent path never sees this unless the caller's
/// inspection policy explicitly includes it.
#[derive(Clone, Debug)]
pub struct Sidecar {
    /// Sidecar schema version.
    pub schema_ver: u16,
    /// Shape of the produced embeddings, when recorded.
    pub lengths: Option<EmbeddingsShape>,
    /// Generic fallback grid when the modality is not vision.
    pub grid: Option<(u16, u16)>,
    /// Text normalisation record.
    pub text: Option<TextSidecar>,
    /// Audio transform record.
    pub audio: Option<AudioSidecar>,
    /// Vision patch record.
    pub vision: Option<VisionSidecar>,
    /// Binary coverage record.
    pub binary: Option<BinarySidecar>,
    /// Backend identity.
    pub backend: BackendInfo,
    /// Mirror of the evidence digest, truncated to eight bytes.
    pub evidence_hash8: [u8; 8],
}

impl Sidecar {
    /// An empty sidecar for the given backend: no records, zeroed evidence
    /// mirror, current schema version.
    pub fn empty(backend: BackendInfo) -> (r: Sidecar)
        ensures
            r.schema_ver == 1,
            r.lengths is None,
            r.grid is None,
            r.text is None,
            r.audio is None,
            r.vision is None,
            r.binary is None,
            r.evidence_hash8@ =~= Seq::new(8, |i: int| 0u8),
    {
        let evidence_hash8: [u8; 8] = [0, 0, 0, 0, 0, 0, 0, 0];
        proof {
            assert(evidence_hash8@ =~= Seq::new(8, |i: int| 0u8));
        }
        Sidecar {
            schema_ver: 1,
            lengths: None,
            grid: None,
            text: None,
            audio: None,
            vision: None,
            binary: None,
            backend,
            evidence_hash8,
        }
    }
}

} // verus!
