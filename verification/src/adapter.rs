//! Adapter contracts: modality, execution context and output payload.
//!
//! Adapters are pure over a byte frame: no hidden I/O, no global state.
//! Determinism is controlled by the execution context. The scalar type of
//! the embeddings is a type parameter; the core never computes on the
//! numeric values, only on their count and layout.

use vstd::prelude::*;

use crate::config::AdapterCfgOverride;
use crate::determinism::Determinism;
use crate::determinism::EmbeddingsShape;
use crate::determinism::RandSeed;
use crate::error::SenseError;
use crate::evidence::EvidenceHandle;
use crate::frame::ByteFrame;
use crate::sidecar::BackendInfo;
use crate::sidecar::Sidecar;
use crate::status::Status;
use crate::trace::TraceTag;

verus! {

/// Routing category assigned to a frame. A closed set; `Container` always
/// resolves to the binary adapter (no container introspection in this core).
#[derive(Clone, Copy, Debug, PartialEq, Eq, Structural, Hash)]
pub enum Modality {
    /// UTF-8/16 text routed to the text adapter.
    Text,
    /// PCM/WAV/MP3 routed to the audio adapter.
    Audio,
    /// Raster images (PNG/JPEG/WebP/GIF/BMP) routed to the vision adapter.
    Vision,
    /// Opaque or unknown bytes routed to the binary adapter.
    Binary,
    /// Recognised container bytes (pdf, zip); served by the binary adapter.
    Container,
}

impl Modality {
    /// The fixed cross-boundary number of this modality (append-only).
    pub open spec fn spec_code(self) -> u8 {
        match self {
            Modality::Text => 0,
            Modality::Audio => 1,
            Modality::Vision => 2,
            Modality::Binary => 3,
            Modality::Container => 4,
        }
    }

    /// Exec mirror of [`Modality::spec_code`].
    #[verifier::when_used_as_spec(spec_code)]
    pub fn code(self) -> (c: u8)
        ensures
            c == self.spec_code(),
    {
        match self {
            Modality::Text => 0,
            Modality::Audio => 1,
            Modality::Vision => 2,
            Modality::Binary => 3,
            Modality::Container => 4,
        }
    }

    /// The modality whose adapter serves this one: containers resolve to the
    /// binary adapter, every other modality to itself.
    pub open spec fn spec_adapter_slot(self) -> Modality {
        match self {
            Modality::Container => Modality::Binary,
            m => m,
        }
    }

    /// Exec mirror of [`Modality::spec_adapter_slot`].
    #[verifier::when_used_as_spec(spec_adapter_slot)]
    pub fn adapter_slot(self) -> (r: Modality)
        ensures
            r == self.spec_adapter_slot(),
    {
        match self {
            Modality::Container => Modality::Binary,
            m => m,
        }
    }
}

/// Per-call adapter execution context.
#[derive(Clone, Copy, Debug)]
pub struct AdapterCtx<'a> {
    /// Determinism grade the adapter must honour.
    pub determinism: Determinism,
    /// Seed pinning any stochastic step under the deterministic grades.
    pub seed: RandSeed,
    /// Adapter-level knobs the caller may override.
    pub overrides: &'a AdapterCfgOverride,
    /// Backend identity to stamp into the sidecar.
    pub backend: BackendInfo,
    /// Whether human-only imprint strings may be populated.
    pub allow_imprints: bool,
}

impl<'a> AdapterCtx<'a> {
    /// A context with imprints disabled.
    pub fn new(
        determinism: Determinism,
        seed: RandSeed,
        overrides: &'a AdapterCfgOverride,
        backend: BackendInfo,
    ) -> (r: AdapterCtx<'a>)
        ensures
            r.determinism == determinism,
            r.seed == seed,
            r.overrides == overrides,
            !r.allow_imprints,
    {
        AdapterCtx { determinism, seed, overrides, backend, allow_imprints: false }
    }

    /// Enables or disables human-only imprints in the output.
    pub fn with_imprints(self, allow: bool) -> (r: AdapterCtx<'a>)
        ensures
            r.allow_imprints == allow,
            r.determinism == self.determinism,
            r.seed == self.seed,
            r.overrides == self.overrides,
            r.backend == self.backend,
    {
        AdapterCtx { allow_imprints: allow, ..self }
    }
}

/// Output returned by an adapter: a flat row-major embedding buffer with its
/// explicit shape, the evidence anchor, the QA sidecar, the step status, the
/// adapter's own trace tags and optional human-only imprints. Fully owned by
/// the caller after return.
#[derive(Clone, Debug)]
pub struct AdapterOut<T> {
    /// Row-major embeddings, flattened; `emb.len() == shape.n * shape.d_model`
    /// when valid.
    pub emb: Vec<T>,
    /// Declared `(n, d_model)` shape of `emb`.
    pub shape: EmbeddingsShape,
    /// Evidence anchor for humans/QA only.
    pub evidence: EvidenceHandle,
    /// Sidecar metadata for humans/QA only.
    pub sidecar: Sidecar,
    /// Processing outcome of the adapter step.
    pub status: Status,
    /// Trace tags emitted by the adapter, in emission order.
    pub trace: Vec<TraceTag>,
    /// Optional human-only notes. Never for agents.
    pub imprints: Option<Vec<String>>,
}

impl<T> AdapterOut<T> {
    /// The embedding buffer length matches the declared shape.
    pub open spec fn inv_emb_len(&self) -> bool {
        self.emb@.len() == self.shape.n * self.shape.d_model
    }

    /// The sidecar's shape record, when present, matches the declared shape.
    pub open spec fn inv_sidecar_lengths(&self) -> bool {
        match self.sidecar.lengths {
            Some(l) => l == self.shape,
            None => true,
        }
    }

    /// The sidecar's evidence mirror matches the evidence handle.
    pub open spec fn inv_evidence_mirror(&self) -> bool {
        self.sidecar.evidence_hash8@ == self.evidence.hash8@
    }

    /// All output invariants together; what the validator checks.
    pub open spec fn valid(&self) -> bool {
        self.inv_emb_len() && self.inv_sidecar_lengths() && self.inv_evidence_mirror()
    }

    /// Builder that wires the shape and evidence mirror into the sidecar, so
    /// the invariants hold by construction.
    pub fn new(
        emb: Vec<T>,
        shape: EmbeddingsShape,
        evidence: EvidenceHandle,
        sidecar: Sidecar,
        status: Status,
    ) -> (r: AdapterOut<T>)
        requires
            emb@.len() == shape.n * shape.d_model,
        ensures
            r.valid(),
            r.emb == emb,
            r.shape == shape,
            r.evidence == evidence,
            r.status == status,
            r.sidecar.lengths matches Some(l) && l == shape,
            r.sidecar.evidence_hash8@ == evidence.hash8@,
            r.sidecar.schema_ver == sidecar.schema_ver,
            r.sidecar.grid == sidecar.grid,
            r.sidecar.text == sidecar.text,
            r.sidecar.audio == sidecar.audio,
            r.sidecar.vision == sidecar.vision,
            r.sidecar.binary == sidecar.binary,
            r.trace@ == Seq::<TraceTag>::empty(),
            r.imprints is None,
    {
        let mut sidecar = sidecar;
        sidecar.lengths = Some(shape);
        sidecar.evidence_hash8 = clone_hash8(&evidence.hash8);
        AdapterOut { emb, shape, evidence, sidecar, status, trace: Vec::new(), imprints: None }
    }

    /// Attaches human-only imprints.
    pub fn with_imprints(self, notes: Vec<String>) -> (r: AdapterOut<T>)
        ensures
            r.imprints matches Some(n) && n == notes,
            r.emb == self.emb,
            r.shape == self.shape,
            r.evidence == self.evidence,
            r.sidecar == self.sidecar,
            r.status == self.status,
            r.trace == self.trace,
    {
        AdapterOut { imprints: Some(notes), ..self }
    }

    /// Total number of scalar values in the buffer.
    pub fn len(&self) -> (n: usize)
        ensures
            n == self.emb@.len(),
    {
        self.emb.len()
    }

    /// True when no embeddings were produced.
    pub fn is_empty(&self) -> (r: bool)
        ensures
            r == (self.emb@.len() == 0),
    {
        self.emb.len() == 0
    }
}

/// Copies an eight-byte digest.
pub fn clone_hash8(h: &[u8; 8]) -> (r: [u8; 8])
    ensures
        r@ == h@,
{
    let r: [u8; 8] = [h[0], h[1], h[2], h[3], h[4], h[5], h[6], h[7]];
    proof {
        assert(r@ =~= h@);
    }
    r
}

/// Compares two eight-byte digests.
pub fn eq_hash8(a: &[u8; 8], b: &[u8; 8]) -> (r: bool)
    ensures
        r == (a@ =~= b@),
{
    let r = a[0] == b[0] && a[1] == b[1] && a[2] == b[2] && a[3] == b[3] && a[4] == b[4] && a[5]
        == b[5] && a[6] == b[6] && a[7] == b[7];
    proof {
        if r {
            assert(a@ =~= b@);
        }
    }
    r
}

/// Core adapter contract. Concrete per-modality encoders live outside this
/// crate and implement this trait; each must be stateless and safely
/// shareable across concurrent callers.
pub trait Adapter<T>: Sized {
    /// The adapter's stable identifier, as seen in contracts. The defaults
    /// here only serve implementations outside the proofs; a verified
    /// implementation gives each of these its own definition.
    open spec fn spec_id(&self) -> Seq<char> {
        Seq::empty()
    }

    /// The single modality this adapter serves, as seen in contracts.
    open spec fn spec_modality(&self) -> Modality {
        Modality::Binary
    }

    /// The fixed output embedding width, as seen in contracts.
    open spec fn spec_d_model(&self) -> u16 {
        0
    }

    /// Stable identifier of the implementation and version.
    fn id(&self) -> (r: &'static str)
        ensures
            r@ == self.spec_id(),
    ;

    /// The single modality this adapter serves.
    fn modality(&self) -> (m: Modality)
        ensures
            m == self.spec_modality(),
    ;

    /// The fixed output embedding width.
    fn d_model(&self) -> (d: u16)
        ensures
            d == self.spec_d_model(),
    ;

    /// Processes a single frame into embeddings and metadata. All failure is
    /// returned as a typed error; on success the output satisfies its
    /// invariants, declares this adapter's width, and populates the sidecar
    /// only for what was actually computed.
    fn process<'a>(&self, frame: &ByteFrame<'a>, ctx: &AdapterCtx<'_>) -> (r: Result<
        AdapterOut<T>,
        SenseError,
    >)
        ensures
            r matches Ok(out) ==> out.valid() && out.shape.d_model == self.spec_d_model() && (
            !ctx.allow_imprints ==> out.imprints is None),
    ;
}

/// Lightweight identifier newtype for adapters.
#[derive(Clone, Copy, Debug)]
pub struct AdapterId(pub &'static str);

/// Lightweight identifier newtype for detectors.
#[derive(Clone, Copy, Debug)]
pub struct DetectorId(pub &'static str);

/// Optional capability manifest describing an adapter implementation; used
/// for introspection and tooling, never by the routing path.
#[derive(Clone, Debug)]
pub struct CapabilityManifest {
    /// Implementation name, e.g. "vision".
    pub name: String,
    /// Modalities the implementation can serve.
    pub modalities: Vec<Modality>,
    /// Embedding width.
    pub d_model: u16,
    /// Free-form string-keyed parameters, in insertion order.
    pub params: Vec<(String, String)>,
    /// Human-readable throughput hint.
    pub throughput_hint: Option<String>,
    /// Whether a secondary quality vector is exported.
    pub quality_vec: bool,
}

} // verus!
