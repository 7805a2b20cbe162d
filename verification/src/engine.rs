//! The engine: detect, route, adapt, merge traces, validate, apply policy.
//!
//! The engine is constructed with a list of adapter implementations, at most
//! one per modality and always one for binary, so the router can fall back.
//! A batch call runs the detector, dispatches to the matching adapter
//! (retrying once against the binary adapter on recoverable failure), merges
//! the traces with the detector's tag first, validates the output invariants
//! and applies the caller's inspection policy.

use vstd::prelude::*;
use vstd::string::StringExecFns;

use crate::adapter::Adapter;
use crate::adapter::AdapterCtx;
use crate::adapter::AdapterOut;
use crate::adapter::Modality;
use crate::config::EngineCfg;
use crate::config::InspectPolicy;
use crate::config::SenseCfg;
use crate::detector::Detector;
use crate::detector::DetectorConfig;
use crate::detector::spec_decision;
use crate::detector::spec_modality_of;
use crate::detector::spec_tag_ok;
use crate::determinism::RandSeed;
use crate::error::SenseError;
use crate::evidence::EvidenceHandle;
use crate::frame::ByteFrame;
use crate::numfmt::u64_to_dec;
use crate::sidecar::BackendInfo;
use crate::sidecar::Sidecar;
use crate::status::Status;
use crate::trace::Phase;
use crate::trace::Reason;
use crate::trace::ReasonClass;
use crate::trace::TraceTag;
use crate::validators::validate_adapter_out;

verus! {

/// Full output of one engine call. The diagnostic fields are populated only
/// when the caller's inspection policy allows them; the agent default is
/// embeddings and status alone.
#[derive(Debug, Clone)]
pub struct SenseOut<T> {
    /// Row-major embeddings, flattened.
    pub emb: Vec<T>,
    /// Embedding width.
    pub d_model: u16,
    /// Aggregated processing status: the worst over every merged trace step
    /// and the adapter's own status.
    pub status: Status,
    /// Merged trace: the detector's tag first, then any engine guard tag,
    /// then the adapter's tags in emission order.
    pub trace: Vec<TraceTag>,
    /// Evidence anchor; populated only under `include_evidence`.
    pub evidence: Option<EvidenceHandle>,
    /// QA sidecar; populated only under `include_sidecar`.
    pub sidecar: Option<Sidecar>,
    /// Human-only notes; populated only under `include_imprints`.
    pub imprints: Option<Vec<String>>,
}

/// Borrowed agent view: embeddings and status only.
pub struct EmbeddingsView<'a, T> {
    /// Row-major embeddings buffer.
    pub emb: &'a [T],
    /// Embedding width.
    pub d_model: u16,
    /// Processing status.
    pub status: Status,
}

/// Owned agent view: embeddings and status only.
pub struct EmbeddingsViewOwned<T> {
    /// Row-major embeddings buffer.
    pub emb: Vec<T>,
    /// Embedding width.
    pub d_model: u16,
    /// Processing status.
    pub status: Status,
}

impl<T> SenseOut<T> {
    /// The strict borrowed agent view: embeddings and status, nothing else.
    pub fn as_embeddings<'a>(&'a self) -> (r: EmbeddingsView<'a, T>)
        ensures
            r.emb@ == self.emb@,
            r.d_model == self.d_model,
            r.status == self.status,
    {
        EmbeddingsView { emb: self.emb.as_slice(), d_model: self.d_model, status: self.status }
    }

    /// One row of the row-major buffer.
    pub fn row<'a>(&'a self, r: usize) -> (out: &'a [T])
        requires
            self.d_model >= 1,
            (r + 1) * self.d_model <= self.emb@.len(),
        ensures
            out@ == self.emb@.subrange(
                r * self.d_model as int,
                r * self.d_model as int + self.d_model as int,
            ),
    {
        let width = self.d_model as usize;
        let total = self.emb.len();
        proof {
            assert(r * width + width <= total) by (nonlinear_arith)
                requires
                    (r + 1) * self.d_model <= self.emb@.len(),
                    width == self.d_model,
                    total == self.emb@.len(),
            ;
        }
        let start = r * width;
        vstd::slice::slice_subrange(self.emb.as_slice(), start, start + width)
    }

    /// Appends a trace tag to the merged trace.
    pub fn push_trace(&mut self, tag: TraceTag)
        ensures
            final (self).trace@ == old(self).trace@.push(tag),
            final (self).emb == old(self).emb,
            final (self).d_model == old(self).d_model,
            final (self).status == old(self).status,
            final (self).evidence == old(self).evidence,
            final (self).sidecar == old(self).sidecar,
            final (self).imprints == old(self).imprints,
    {
        self.trace.push(tag);
    }

    /// The strict owned agent view: embeddings and status, nothing else.
    pub fn into_embeddings(self) -> (r: EmbeddingsViewOwned<T>)
        ensures
            r.emb == self.emb,
            r.d_model == self.d_model,
            r.status == self.status,
    {
        EmbeddingsViewOwned { emb: self.emb, d_model: self.d_model, status: self.status }
    }
}

/// Left fold of `worst` over the statuses of a trace.
pub open spec fn spec_worst_of(tags: Seq<TraceTag>, acc: Status) -> Status
    decreases tags.len(),
{
    if tags.len() == 0 {
        acc
    } else {
        spec_worst_of(tags.drop_first(), Status::spec_worst(acc, tags[0].status))
    }
}

/// One left-fold step of [`spec_worst_of`].
proof fn lemma_worst_of_snoc(tags: Seq<TraceTag>, acc: Status, k: int)
    requires
        0 <= k < tags.len(),
    ensures
        spec_worst_of(tags.take(k + 1), acc) == Status::spec_worst(
            spec_worst_of(tags.take(k), acc),
            tags[k].status,
        ),
    decreases k,
{
    let a2 = Status::spec_worst(acc, tags[0].status);
    if k == 0 {
        assert(tags.take(1) =~= seq![tags[0]]);
        assert(tags.take(0) =~= Seq::<TraceTag>::empty());
        assert(seq![tags[0]].drop_first() =~= Seq::<TraceTag>::empty());
        assert(spec_worst_of(tags.take(1), acc) == spec_worst_of(
            Seq::<TraceTag>::empty(),
            a2,
        ));
    } else {
        let t = tags.drop_first();
        assert(tags.take(k + 1)[0] == tags[0]);
        assert(tags.take(k)[0] == tags[0]);
        assert(tags.take(k + 1).drop_first() =~= t.take(k));
        assert(tags.take(k).drop_first() =~= t.take(k - 1));
        assert(spec_worst_of(tags.take(k + 1), acc) == spec_worst_of(t.take(k), a2));
        assert(spec_worst_of(tags.take(k), acc) == spec_worst_of(t.take(k - 1), a2));
        lemma_worst_of_snoc(t, a2, k - 1);
        assert(t[k - 1] == tags[k]);
    }
}

/// The fold result is at least as severe as the accumulator and as every
/// folded tag's status.
pub proof fn lemma_worst_of_bounds(tags: Seq<TraceTag>, acc: Status)
    ensures
        spec_worst_of(tags, acc).spec_code() >= acc.spec_code(),
        forall|k: int|
            0 <= k < tags.len() ==> spec_worst_of(tags, acc).spec_code()
                >= tags[k].status.spec_code(),
    decreases tags.len(),
{
    if tags.len() == 0 {
    } else {
        let a2 = Status::spec_worst(acc, tags[0].status);
        lemma_worst_of_bounds(tags.drop_first(), a2);
        assert(forall|k: int|
            1 <= k < tags.len() ==> tags.drop_first()[k - 1].status == tags[k].status);
    }
}

/// Computes the fold of `worst` over a trace.
pub fn worst_of(tags: &Vec<TraceTag>, acc: Status) -> (r: Status)
    ensures
        r == spec_worst_of(tags@, acc),
{
    let n = tags.len();
    let mut r = acc;
    let mut k: usize = 0;
    proof {
        assert(tags@.take(0) =~= Seq::<TraceTag>::empty());
    }
    while k < n
        invariant
            n == tags@.len(),
            k <= n,
            r == spec_worst_of(tags@.take(k as int), acc),
        decreases n - k,
    {
        r = Status::worst(r, tags[k].status);
        proof {
            lemma_worst_of_snoc(tags@, acc, k as int);
        }
        k = k + 1;
    }
    proof {
        assert(tags@.take(n as int) =~= tags@);
    }
    r
}

/// The reason class an engine guard tag uses for an adapter error: each
/// error kind maps onto the closest trace reason class; kinds without one of
/// their own (backend, timeout, policy, internal) reuse device, bounds,
/// routing and config respectively.
pub open spec fn spec_guard_class(e: &SenseError) -> ReasonClass {
    match e {
        SenseError::Decode(_) => ReasonClass::Decode,
        SenseError::Format(_) => ReasonClass::Format,
        SenseError::Bounds(_) => ReasonClass::Bounds,
        SenseError::Device(_) => ReasonClass::Device,
        SenseError::Config(_) => ReasonClass::Config,
        SenseError::Container(_) => ReasonClass::Container,
        SenseError::Backend(_) => ReasonClass::Device,
        SenseError::Timeout => ReasonClass::Bounds,
        SenseError::PolicyDrop(_) => ReasonClass::Routing,
        SenseError::Internal(_) => ReasonClass::Config,
    }
}

/// Exec mirror of [`spec_guard_class`].
fn guard_class(e: &SenseError) -> (r: ReasonClass)
    ensures
        r == spec_guard_class(e),
{
    match e {
        SenseError::Decode(_) => ReasonClass::Decode,
        SenseError::Format(_) => ReasonClass::Format,
        SenseError::Bounds(_) => ReasonClass::Bounds,
        SenseError::Device(_) => ReasonClass::Device,
        SenseError::Config(_) => ReasonClass::Config,
        SenseError::Container(_) => ReasonClass::Container,
        SenseError::Backend(_) => ReasonClass::Device,
        SenseError::Timeout => ReasonClass::Bounds,
        SenseError::PolicyDrop(_) => ReasonClass::Routing,
        SenseError::Internal(_) => ReasonClass::Config,
    }
}

/// The message a guard tag preserves from the failed adapter's error.
pub open spec fn spec_guard_message(e: &SenseError) -> Seq<char> {
    match e {
        SenseError::Decode(m) => m@,
        SenseError::Format(m) => m@,
        SenseError::Bounds(m) => m@,
        SenseError::Device(m) => m@,
        SenseError::Config(m) => m@,
        SenseError::Container(m) => m@,
        SenseError::Backend(m) => m@,
        SenseError::Timeout => "adapter failed"@,
        SenseError::PolicyDrop(m) => m@,
        SenseError::Internal(m) => m@,
    }
}

/// The guard tag the engine emits when it falls back to the binary adapter:
/// phase Guard, the error's stable code as a parameter, the failed adapter's
/// status hint, and the original error's class and message preserved as the
/// reason.
pub open spec fn spec_guard_tag(e: &SenseError, tag: TraceTag) -> bool {
    &&& tag.phase == Phase::Guard
    &&& tag.name@ == "adapter-fallback"@
    &&& tag.params@ == crate::trace::spec_param_append(
        Seq::empty(),
        "code"@,
        crate::numfmt::spec_dec(e.spec_code().spec_number() as nat),
    )
    &&& tag.status == e.spec_status_hint()
    &&& (tag.reason matches Some(r) && r.class == spec_guard_class(e) && r.message@
        == spec_guard_message(e))
    &&& tag.spans@ == Seq::<crate::trace::Range>::empty()
}

/// Builds the guard tag for a failed adapter call, preserving the original
/// error's reason in the merged trace.
fn guard_tag(e: &SenseError) -> (tag: TraceTag)
    ensures
        spec_guard_tag(e, tag),
{
    let base = TraceTag::new(Phase::Guard, "adapter-fallback").param(
        "code",
        u64_to_dec(e.code().number() as u64).as_str(),
    );
    let reason = match e.message() {
        Some(m) => Reason::new(guard_class(e), m),
        None => Reason::new(guard_class(e), "adapter failed"),
    };
    match e.status_hint() {
        Status::Fail => base.fail(reason),
        Status::Degraded => base.degraded(Some(reason)),
        _ => base.warn(Some(reason)),
    }
}

/// What assembling an engine result guarantees, given the detector tag, an
/// optional guard tag and the validated adapter output.
pub open spec fn spec_assembled<T>(
    det_tag: TraceTag,
    guard: Option<TraceTag>,
    out: AdapterOut<T>,
    inspect: InspectPolicy,
    r: SenseOut<T>,
) -> bool {
    let merged = match guard {
        Some(g) => seq![det_tag, g] + out.trace@,
        None => seq![det_tag] + out.trace@,
    };
    &&& r.emb == out.emb
    &&& r.d_model == out.shape.d_model
    &&& r.trace@ == merged
    &&& r.status == spec_worst_of(merged, out.status)
    &&& (if inspect.include_evidence {
        r.evidence matches Some(ev) && ev == out.evidence
    } else {
        r.evidence is None
    })
    &&& (if inspect.include_sidecar {
        r.sidecar matches Some(sc) && sc == out.sidecar
    } else {
        r.sidecar is None
    })
    &&& (if inspect.include_imprints {
        r.imprints == out.imprints
    } else {
        r.imprints is None
    })
}

/// Merges the detector tag, an optional guard tag and the adapter's trace,
/// aggregates the status, and applies the inspection policy.
fn assemble<T>(
    det_tag: TraceTag,
    guard: Option<TraceTag>,
    out: AdapterOut<T>,
    inspect: InspectPolicy,
) -> (r: SenseOut<T>)
    ensures
        spec_assembled(det_tag, guard, out, inspect, r),
{
    let ghost gguard = guard;
    let ghost gout = out;
    let mut trace: Vec<TraceTag> = Vec::new();
    trace.push(det_tag);
    match guard {
        Some(g) => {
            trace.push(g);
        },
        None => {},
    }
    let status_acc = out.status;
    let mut adapter_trace = out.trace;
    trace.append(&mut adapter_trace);
    proof {
        match gguard {
            Some(g) => {
                assert(trace@ =~= seq![det_tag, g] + gout.trace@);
            },
            None => {
                assert(trace@ =~= seq![det_tag] + gout.trace@);
            },
        }
    }
    let status = worst_of(&trace, status_acc);
    SenseOut {
        emb: out.emb,
        d_model: out.shape.d_model,
        status,
        trace,
        evidence: if inspect.include_evidence {
            Some(out.evidence)
        } else {
            None
        },
        sidecar: if inspect.include_sidecar {
            Some(out.sidecar)
        } else {
            None
        },
        imprints: if inspect.include_imprints {
            out.imprints
        } else {
            None
        },
    }
}

/// The adapters of an engine: at most one per modality, one of them binary,
/// and every registered family enabled in the configuration.
pub open spec fn spec_adapters_wf<T, A: Adapter<T>>(adapters: Seq<A>, cfg: EngineCfg) -> bool {
    &&& (forall|i: int, j: int|
        0 <= i < j < adapters.len() ==> adapters[i].spec_modality() != adapters[j].spec_modality())
    &&& (exists|i: int|
        0 <= i < adapters.len() && adapters[i].spec_modality() == Modality::Binary)
    &&& (forall|i: int|
        0 <= i < adapters.len() ==> cfg.features.spec_enabled(#[trigger] adapters[i].spec_modality()))
}

/// Finds the adapter registered for a modality.
fn find_adapter<T, A: Adapter<T>>(adapters: &Vec<A>, m: Modality) -> (r: Option<usize>)
    ensures
        match r {
            Some(i) => i < adapters@.len() && adapters@[i as int].spec_modality() == m,
            None => forall|j: int|
                0 <= j < adapters@.len() ==> adapters@[j].spec_modality() != m,
        },
{
    let n = adapters.len();
    let mut i: usize = 0;
    while i < n
        invariant
            n == adapters@.len(),
            i <= n,
            forall|j: int| 0 <= j < i ==> adapters@[j].spec_modality() != m,
        decreases n - i,
    {
        if adapters[i].modality().code() == m.code() {
            proof {
                assert(adapters@[i as int].spec_modality() == m);
            }
            return Some(i);
        }
        i = i + 1;
    }
    None
}

/// The perception engine. Shared by batch callers; session state is owned
/// exclusively by the engine and addressed only by identifiers.
pub struct Engine<T, A> {
    /// Engine-time configuration.
    pub cfg: EngineCfg,
    /// The detector the engine routes with.
    pub detector: Detector,
    /// Registered adapters, at most one per modality.
    pub adapters: Vec<A>,
    /// Seed handed to adapters for pinning stochastic steps.
    pub seed: RandSeed,
    /// Backend identity stamped into diagnostics.
    pub backend: BackendInfo,
    /// Streaming sessions, addressed by index; closed sessions are retained
    /// as audit records.
    pub sessions: Vec<crate::session::Session<T>>,
}

impl<T, A: Adapter<T>> Engine<T, A> {
    /// The engine's invariant over its registered adapters.
    pub open spec fn wf(&self) -> bool {
        spec_adapters_wf(self.adapters@, self.cfg)
    }

    /// Builds an engine from a configuration and a list of adapters.
    /// Registration is valid exactly when no two adapters claim the same
    /// modality, a binary adapter is present for fallback, and every
    /// registered family is enabled; any violation is a configuration error.
    pub fn new(cfg: EngineCfg, backend: BackendInfo, seed: RandSeed, adapters: Vec<A>) -> (r:
        Result<Engine<T, A>, SenseError>)
        ensures
            r matches Ok(engine) ==> engine.wf() && engine.cfg == cfg && engine.seed == seed
                && engine.adapters == adapters && engine.sessions@.len() == 0,
            r matches Err(e) ==> e matches SenseError::Config(_),
            r is Ok <==> spec_adapters_wf(adapters@, cfg),
    {
        let n = adapters.len();
        let mut i: usize = 0;
        while i < n
            invariant
                n == adapters@.len(),
                i <= n,
                forall|p: int, q: int|
                    0 <= p < q < adapters@.len() && q < i ==> adapters@[p].spec_modality()
                        != adapters@[q].spec_modality(),
                forall|p: int|
                    0 <= p < i ==> cfg.features.spec_enabled(
                        #[trigger] adapters@[p].spec_modality(),
                    ),
            decreases n - i,
        {
            let mi = adapters[i].modality();
            if !cfg.features.enabled(mi) {
                return Err(SenseError::Config(String::from_str(
                    "adapter registered for a disabled modality family",
                )));
            }
            let mut j: usize = 0;
            while j < i
                invariant
                    i < n,
                    n == adapters@.len(),
                    j <= i,
                    mi == adapters@[i as int].spec_modality(),
                    forall|p: int|
                        0 <= p < j ==> adapters@[p].spec_modality() != adapters@[
                            i as int
                        ].spec_modality(),
                decreases i - j,
            {
                if adapters[j].modality().code() == mi.code() {
                    proof {
                        assert(adapters@[j as int].spec_modality() == adapters@[
                            i as int
                        ].spec_modality());
                    }
                    return Err(SenseError::Config(String::from_str(
                        "duplicate adapter registration for a modality",
                    )));
                }
                j = j + 1;
            }
            i = i + 1;
        }
        match find_adapter(&adapters, Modality::Binary) {
            Some(_) => {},
            None => {
                return Err(SenseError::Config(String::from_str(
                    "no binary adapter registered for fallback",
                )));
            },
        }
        Ok(
            Engine {
                cfg,
                detector: Detector::new(DetectorConfig::default()),
                adapters,
                seed,
                backend,
                sessions: Vec::new(),
            },
        )
    }

    /// The shared detect, route, adapt, merge, validate and gate pipeline,
    /// parameterised over the determinism grade and the frame cap so batch
    /// calls and sessions can each apply their own policy.
    pub(crate) fn run_with<'a>(
        &self,
        bf: &ByteFrame<'a>,
        cfg: &SenseCfg,
        det: crate::determinism::Determinism,
        max_frame: u64,
    ) -> (r: Result<SenseOut<T>, SenseError>)
        requires
            self.wf(),
        ensures
            bf.data@.len() > max_frame ==> (r matches Err(e) && e matches SenseError::Bounds(_)),
            r matches Ok(out) ==> bf.data@.len() <= max_frame
                && out.trace@.len() >= 1 && spec_tag_ok(
                self.detector.cfg,
                bf.data@,
                bf.spec_hint_mime(),
                out.trace@[0],
            ) && (exists|i: int|
                0 <= i < self.adapters@.len() && out.d_model == (#[trigger] self.adapters@[
                    i
                ]).spec_d_model() && (self.adapters@[i].spec_modality() == spec_modality_of(
                    spec_decision(self.detector.cfg, bf.data@, bf.spec_hint_mime()),
                ).spec_adapter_slot() || self.adapters@[i].spec_modality() == Modality::Binary))
                && (if cfg.inspect.include_evidence {
                out.evidence is Some
            } else {
                out.evidence is None
            }) && (if cfg.inspect.include_sidecar {
                out.sidecar is Some
            } else {
                out.sidecar is None
            }) && (!cfg.inspect.include_imprints ==> out.imprints is None) && (exists|rows: u32|
                out.emb@.len() == #[trigger] (rows * out.d_model)) && (forall|k: int|
                0 <= k < out.trace@.len() ==> out.status.spec_code() >= (#[trigger] out.trace@[
                    k
                ]).status.spec_code()),
    {
        if bf.data.len() as u64 > max_frame {
            return Err(SenseError::Bounds(String::from_str("frame over the maximum size")));
        }
        let route_out = self.detector.detect(bf);
        let slot = route_out.route.modality.adapter_slot();
        let overrides = &cfg.adapter_overrides;
        let ctx = AdapterCtx::new(det, self.seed, overrides, self.backend)
            .with_imprints(cfg.inspect.include_imprints);
        let binary_ix = match find_adapter(&self.adapters, Modality::Binary) {
            Some(i) => i,
            None => {
                proof {
                    assert(false);
                }
                return Err(SenseError::Internal(String::from_str("missing binary adapter")));
            },
        };
        let ix = match find_adapter(&self.adapters, slot) {
            Some(i) => i,
            None => binary_ix,
        };
        let first = self.adapters[ix].process(bf, &ctx);
        match first {
            Ok(out) => {
                let ghost width = out.shape.d_model;
                let r = self.finish(route_out.tag, None, out, cfg);
                proof {
                    assert(width == self.adapters@[ix as int].spec_d_model());
                }
                r
            },
            Err(e) => {
                if ix == binary_ix {
                    // The binary adapter itself failed: nothing to retry.
                    return Err(e);
                }
                let g = guard_tag(&e);
                let retried = self.adapters[binary_ix].process(bf, &ctx);
                match retried {
                    Ok(out) => {
                        let ghost width = out.shape.d_model;
                        let r = self.finish(route_out.tag, Some(g), out, cfg);
                        proof {
                            assert(width == self.adapters@[binary_ix as int].spec_d_model());
                        }
                        r
                    },
                    Err(e2) => Err(e2),
                }
            },
        }
    }

    /// Batch entry: detects, routes, adapts (falling back to the binary
    /// adapter once on recoverable failure), merges the traces with the
    /// detector tag first, validates the output and applies the inspection
    /// policy. An oversized frame is rejected up front with a bounds error;
    /// a validation failure is an internal error fatal to the call.
    pub fn process<'a>(&self, bf: &ByteFrame<'a>, cfg: &SenseCfg) -> (r: Result<
        SenseOut<T>,
        SenseError,
    >)
        requires
            self.wf(),
        ensures
            bf.data@.len() > self.cfg.caps.spec_max_frame_bytes() ==> (r matches Err(e) && e
                matches SenseError::Bounds(_)),
            r matches Ok(out) ==> bf.data@.len() <= self.cfg.caps.spec_max_frame_bytes()
                && out.trace@.len() >= 1 && spec_tag_ok(
                self.detector.cfg,
                bf.data@,
                bf.spec_hint_mime(),
                out.trace@[0],
            ) && (exists|i: int|
                0 <= i < self.adapters@.len() && out.d_model == (#[trigger] self.adapters@[
                    i
                ]).spec_d_model() && (self.adapters@[i].spec_modality() == spec_modality_of(
                    spec_decision(self.detector.cfg, bf.data@, bf.spec_hint_mime()),
                ).spec_adapter_slot() || self.adapters@[i].spec_modality() == Modality::Binary))
                && (if cfg.inspect.include_evidence {
                out.evidence is Some
            } else {
                out.evidence is None
            }) && (if cfg.inspect.include_sidecar {
                out.sidecar is Some
            } else {
                out.sidecar is None
            }) && (!cfg.inspect.include_imprints ==> out.imprints is None) && (exists|rows: u32|
                out.emb@.len() == #[trigger] (rows * out.d_model)) && (forall|k: int|
                0 <= k < out.trace@.len() ==> out.status.spec_code() >= (#[trigger] out.trace@[
                    k
                ]).status.spec_code()),
    {
        self.run_with(bf, cfg, self.cfg.determinism, self.cfg.caps.max_frame_bytes())
    }

    /// Validates an adapter output and assembles the final result.
    fn finish(
        &self,
        det_tag: TraceTag,
        guard: Option<TraceTag>,
        out: AdapterOut<T>,
        cfg: &SenseCfg,
    ) -> (r: Result<SenseOut<T>, SenseError>)
        requires
            out.valid(),
        ensures
            r matches Ok(so) ==> spec_assembled(det_tag, guard, out, cfg.inspect, so)
                && so.trace@.len() >= 1 && so.trace@[0] == det_tag && (exists|rows: u32|
                so.emb@.len() == #[trigger] (rows * so.d_model)) && (forall|k: int|
                0 <= k < so.trace@.len() ==> so.status.spec_code() >= (#[trigger] so.trace@[
                    k
                ]).status.spec_code()),
            r is Ok,
    {
        match validate_adapter_out(&out) {
            Ok(()) => {},
            Err(e) => {
                proof {
                    assert(false);
                }
                return Err(e);
            },
        }
        let ghost gout = out;
        let so = assemble(det_tag, guard, out, cfg.inspect);
        proof {
            assert(so.trace@[0] == det_tag);
            assert(so.emb@.len() == gout.shape.n * so.d_model);
            assert(exists|rows: u32| so.emb@.len() == #[trigger] (rows * so.d_model)) by {
                assert(so.emb@.len() == (gout.shape.n) * so.d_model);
            }
            lemma_worst_of_bounds(so.trace@, gout.status);
        }
        Ok(so)
    }

    /// Agent convenience: embeddings, width and status only; the cheapest
    /// and most restrictive view, with every diagnostic field stripped.
    pub fn process_embeddings<'a>(&self, bf: &ByteFrame<'a>, cfg: &SenseCfg) -> (r: Result<
        EmbeddingsViewOwned<T>,
        SenseError,
    >)
        requires
            self.wf(),
        ensures
            bf.data@.len() > self.cfg.caps.spec_max_frame_bytes() ==> (r matches Err(e) && e
                matches SenseError::Bounds(_)),
            r matches Ok(v) ==> (exists|rows: u32| v.emb@.len() == #[trigger] (rows * v.d_model)),
    {
        match self.process(bf, cfg) {
            Ok(out) => {
                let ghost g = out;
                let v = out.into_embeddings();
                proof {
                    let w = choose|rows: u32| g.emb@.len() == #[trigger] (rows * g.d_model);
                    assert(v.emb@.len() == w * v.d_model);
                }
                Ok(v)
            },
            Err(e) => Err(e),
        }
    }
}

} // verus!
