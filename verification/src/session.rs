//! Bounded streaming sessions over the engine.
//!
//! A session binds a caller-chosen policy (caps, determinism, queue depth)
//! and owns its flows, one per distinct source and hint combination. Its
//! lifecycle is Created, then Active once frames arrive, then Closed with a
//! recorded reason; no transition leaves Closed. Frames are processed
//! eagerly at `ingest` (adapters are short, bounded operations), and the
//! finished outputs are buffered until `poll` drains them; the queue depth
//! bound and the session byte budget reject further `ingest` calls with a
//! bounds error instead of growing memory.

use vstd::prelude::*;
use vstd::string::StringExecFns;

use crate::adapter::Adapter;
use crate::config::Caps;
use crate::determinism::Determinism;
use crate::engine::Engine;
use crate::engine::SenseOut;
use crate::error::SenseError;
use crate::frame::ByteFrame;
use crate::hint::str_eq;
use crate::config::SenseCfg;

verus! {

/// Identifier of a streaming session.
#[derive(Clone, Copy, Debug, PartialEq, Eq, Structural, Hash)]
pub struct SessionId(pub u64);

/// Identifier of one logical stream within a session.
#[derive(Clone, Copy, Debug, PartialEq, Eq, Structural, Hash)]
pub struct FlowId(pub u64);

/// Why a session was closed; recorded at closure for audit.
#[derive(Clone, Copy, Debug, PartialEq, Eq, Structural, Hash)]
pub enum CloseReason {
    /// The caller asked for the session to end.
    CallerRequested,
    /// A cap or budget was exhausted.
    CapExceeded,
    /// The session timed out.
    TimedOut,
}

/// Caller-chosen policy for one session: caps, determinism grade and the
/// maximum number of buffered, not-yet-polled outputs.
#[derive(Clone, Copy, Debug, PartialEq, Eq, Structural)]
pub struct FlowPolicy {
    /// Size and time caps for this session.
    pub caps: Caps,
    /// Determinism grade within this session's flows.
    pub determinism: Determinism,
    /// Queue depth: how many finished outputs may wait unpolled.
    pub max_pending: usize,
    /// Per-call configuration applied to every frame of this session.
    pub call: SenseCfg,
}

/// Lifecycle phase of a session.
#[derive(Clone, Copy, Debug, PartialEq, Eq, Structural)]
pub enum SessionPhase {
    /// Started, no frame ingested yet.
    Created,
    /// Accepting `ingest`, yielding via `poll` and `flush`.
    Active,
    /// Terminated; no transition leaves this phase.
    Closed,
}

/// One logical stream within a session, keyed by source and hint.
#[derive(Clone, Debug)]
pub struct Flow {
    /// The flow's identifier.
    pub id: u64,
    /// Source identifier of the frames bound to this flow.
    pub source_id: String,
    /// The MIME-style hint of the frames bound to this flow, if any.
    pub hint_mime: Option<String>,
}

/// True when a flow is keyed by the given source and hint.
pub open spec fn spec_flow_matches(fl: Flow, source: Seq<char>, hint: Option<Seq<char>>) -> bool {
    &&& fl.source_id@ == source
    &&& (match (fl.hint_mime, hint) {
        (Some(a), Some(b)) => a@ == b,
        (None, None) => true,
        _ => false,
    })
}

/// State of one streaming session; owned exclusively by the engine and
/// addressed only by its identifier.
#[derive(Debug)]
pub struct Session<T> {
    /// The session's policy.
    pub policy: FlowPolicy,
    /// Lifecycle phase.
    pub phase: SessionPhase,
    /// The close reason, recorded when the session is closed.
    pub close_reason: Option<CloseReason>,
    /// The flows bound so far, in binding order, with distinct identifiers.
    pub flows: Vec<Flow>,
    /// Identifier for the next flow to bind.
    pub next_flow: u64,
    /// Payload bytes accepted so far, counted against the byte budget.
    pub bytes_used: u64,
    /// Finished outputs waiting to be polled, oldest first.
    pub pending: Vec<(FlowId, SenseOut<T>)>,
}

impl<T> Session<T> {
    /// A fresh session under the given policy.
    pub fn start(policy: FlowPolicy) -> (r: Session<T>)
        ensures
            r.policy == policy,
            r.phase == SessionPhase::Created,
            r.close_reason is None,
            r.flows@.len() == 0,
            r.next_flow == 0,
            r.bytes_used == 0,
            r.pending@.len() == 0,
    {
        Session {
            policy,
            phase: SessionPhase::Created,
            close_reason: None,
            flows: Vec::new(),
            next_flow: 0,
            bytes_used: 0,
            pending: Vec::new(),
        }
    }
}

/// Finds the flow keyed by the given source and hint, or binds a new one.
fn bind_flow(
    flows: &mut Vec<Flow>,
    next_flow: &mut u64,
    source_id: &str,
    hint: Option<&str>,
) -> (fid: FlowId)
    requires
        *old(next_flow) < 0xFFFF_FFFF_FFFF_FFFF,
    ensures
        ({
            let source = source_id@;
            let h = match hint {
                Some(x) => Some(x@),
                None => None,
            };
            ||| (exists|j: int|
                0 <= j < old(flows)@.len() && spec_flow_matches(#[trigger] old(flows)@[j], source, h)
                    && fid.0 == old(flows)@[j].id && final (flows)@ == old(flows)@
                    && *final (next_flow) == *old(next_flow))
            ||| ((forall|j: int|
                0 <= j < old(flows)@.len() ==> !spec_flow_matches(
                    #[trigger] old(flows)@[j],
                    source,
                    h,
                )) && fid.0 == *old(next_flow) && *final (next_flow) == *old(next_flow) + 1
                && final (flows)@.len() == old(flows)@.len() + 1
                && final (flows)@.drop_last() == old(flows)@
                && spec_flow_matches(final (flows)@.last(), source, h)
                && final (flows)@.last().id == *old(next_flow))
        }),
{
    let n = flows.len();
    let mut i: usize = 0;
    while i < n
        invariant
            n == flows@.len(),
            i <= n,
            forall|j: int|
                0 <= j < i ==> !spec_flow_matches(
                    #[trigger] flows@[j],
                    source_id@,
                    match hint {
                        Some(x) => Some(x@),
                        None => None,
                    },
                ),
        decreases n - i,
    {
        let fl = &flows[i];
        let source_matches = str_eq(fl.source_id.as_str(), source_id);
        let hint_matches = match (&fl.hint_mime, hint) {
            (Some(a), Some(b)) => str_eq(a.as_str(), b),
            (None, None) => true,
            _ => false,
        };
        if source_matches && hint_matches {
            return FlowId(fl.id);
        }
        i = i + 1;
    }
    let id = *next_flow;
    let fl = Flow {
        id,
        source_id: String::from_str(source_id),
        hint_mime: match hint {
            Some(h) => Some(String::from_str(h)),
            None => None,
        },
    };
    flows.push(fl);
    proof {
        assert(flows@.drop_last() =~= old(flows)@);
    }
    *next_flow = id + 1;
    FlowId(id)
}


/// Sessions are addressed by index into the engine's session list; closed
/// sessions are retained as audit records, so an identifier stays valid for
/// the engine's lifetime.
pub open spec fn spec_sid_valid<T, A>(engine: &Engine<T, A>, sid: SessionId) -> bool {
    sid.0 < engine.sessions@.len()
}

/// The engine's non-session state: configuration, detector, adapters, seed
/// and backend identity.
pub open spec fn spec_core_eq<T, A>(a: &Engine<T, A>, b: &Engine<T, A>) -> bool {
    &&& a.cfg == b.cfg
    &&& a.detector == b.detector
    &&& a.adapters == b.adapters
    &&& a.seed == b.seed
    &&& a.backend == b.backend
}

impl<T, A: Adapter<T>> Engine<T, A> {
    /// Starts a streaming session under the given policy and returns its
    /// identifier. The new session is Created: no frame ingested, no flow
    /// bound, nothing pending.
    pub fn start_session(&mut self, policy: FlowPolicy) -> (sid: SessionId)
        requires
            old(self).sessions@.len() < 0xFFFF_FFFF_FFFF_FFFF,
        ensures
            spec_core_eq(final (self), old(self)),
            sid.0 == old(self).sessions@.len(),
            spec_sid_valid(final (self), sid),
            final (self).sessions@.len() == old(self).sessions@.len() + 1,
            final (self).sessions@.drop_last() == old(self).sessions@,
            final (self).sessions@.last().policy == policy,
            final (self).sessions@.last().phase == SessionPhase::Created,
            final (self).sessions@.last().close_reason is None,
            final (self).sessions@.last().flows@.len() == 0,
            final (self).sessions@.last().bytes_used == 0,
            final (self).sessions@.last().pending@.len() == 0,
    {
        let sid = SessionId(self.sessions.len() as u64);
        self.sessions.push(Session::start(policy));
        proof {
            assert(self.sessions@.drop_last() =~= old(self).sessions@);
        }
        sid
    }

    /// Ingests one frame into a session. Never blocks; rejects instead: an
    /// unknown session is a configuration error; a closed session is a
    /// policy drop; an oversized frame, an exhausted byte budget or a full
    /// output queue is a bounds error, and the session stays usable. An
    /// accepted frame is bound to the flow keyed by its source and hint (a
    /// new flow when none matches), processed under the session's policy,
    /// and its output is buffered for `poll`.
    pub fn ingest<'a>(&mut self, sid: SessionId, bf: ByteFrame<'a>) -> (r: Result<
        FlowId,
        SenseError,
    >)
        requires
            old(self).wf(),
        ensures
            final (self).wf(),
            spec_core_eq(final (self), old(self)),
            final (self).sessions@.len() == old(self).sessions@.len(),
            !spec_sid_valid(old(self), sid) ==> (r matches Err(e) && e
                matches SenseError::Config(_)) && final (self).sessions@ == old(self).sessions@,
            spec_sid_valid(old(self), sid) ==> ({
                let s = old(self).sessions@[sid.0 as int];
                let n = bf.data@.len();
                &&& (forall|i: int|
                    0 <= i < old(self).sessions@.len() && i != sid.0 as int
                        ==> final (self).sessions@[i] == old(self).sessions@[i])
                &&& (s.phase is Closed ==> (r matches Err(e) && e
                    matches SenseError::PolicyDrop(_)) && final (self).sessions@ == old(
                    self,
                ).sessions@)
                &&& (s.phase !is Closed && n > s.policy.caps.spec_max_frame_bytes() ==> (r
                    matches Err(e) && e matches SenseError::Bounds(_)) && final (self).sessions@
                    == old(self).sessions@)
                &&& (s.phase !is Closed && n <= s.policy.caps.spec_max_frame_bytes()
                    && s.bytes_used + n > s.policy.caps.spec_session_cap_bytes() ==> (r
                    matches Err(e) && e matches SenseError::Bounds(_)) && final (self).sessions@
                    == old(self).sessions@)
                &&& (s.phase !is Closed && n <= s.policy.caps.spec_max_frame_bytes()
                    && s.bytes_used + n <= s.policy.caps.spec_session_cap_bytes()
                    && s.pending@.len() >= s.policy.max_pending ==> (r matches Err(e) && e
                    matches SenseError::Bounds(_)) && final (self).sessions@ == old(
                    self,
                ).sessions@)
                &&& (r matches Err(_) ==> final (self).sessions@ == old(self).sessions@)
                &&& (r matches Ok(fid) ==> ({
                    let s2 = final (self).sessions@[sid.0 as int];
                    &&& s.phase !is Closed
                    &&& n <= s.policy.caps.spec_max_frame_bytes()
                    &&& s.bytes_used + n <= s.policy.caps.spec_session_cap_bytes()
                    &&& s.pending@.len() < s.policy.max_pending
                    &&& s2.phase == SessionPhase::Active
                    &&& s2.policy == s.policy
                    &&& s2.close_reason == s.close_reason
                    &&& s2.bytes_used == s.bytes_used + n
                    &&& s2.pending@.len() == s.pending@.len() + 1
                    &&& s2.pending@.drop_last() == s.pending@
                    &&& s2.pending@.last().0 == fid
                    &&& s2.pending@.last().1.trace@.len() >= 1
                    &&& crate::detector::spec_tag_ok(
                        old(self).detector.cfg,
                        bf.data@,
                        bf.spec_hint_mime(),
                        s2.pending@.last().1.trace@[0],
                    )
                    &&& (!s.policy.call.inspect.include_evidence
                        ==> s2.pending@.last().1.evidence is None)
                    &&& (!s.policy.call.inspect.include_sidecar
                        ==> s2.pending@.last().1.sidecar is None)
                    &&& (!s.policy.call.inspect.include_imprints
                        ==> s2.pending@.last().1.imprints is None)
                    &&& ((exists|j: int|
                        0 <= j < s.flows@.len() && spec_flow_matches(
                            #[trigger] s.flows@[j],
                            bf.source_id@,
                            bf.spec_hint_mime(),
                        ) && fid.0 == s.flows@[j].id && s2.flows@ == s.flows@ && s2.next_flow
                            == s.next_flow) || ((forall|j: int|
                        0 <= j < s.flows@.len() ==> !spec_flow_matches(
                            #[trigger] s.flows@[j],
                            bf.source_id@,
                            bf.spec_hint_mime(),
                        )) && fid.0 == s.next_flow && s2.next_flow == s.next_flow + 1
                        && s2.flows@.len() == s.flows@.len() + 1 && s2.flows@.drop_last()
                        == s.flows@ && spec_flow_matches(
                        s2.flows@.last(),
                        bf.source_id@,
                        bf.spec_hint_mime(),
                    ) && s2.flows@.last().id == s.next_flow))
                }))
            }),
    {
        let i = sid.0 as usize;
        if !(sid.0 < self.sessions.len() as u64) {
            return Err(SenseError::Config(String::from_str("unknown session")));
        }
        if matches!(self.sessions[i].phase, SessionPhase::Closed) {
            return Err(SenseError::PolicyDrop("session closed"));
        }
        let n = bf.data.len() as u64;
        let policy = self.sessions[i].policy;
        if n > policy.caps.max_frame_bytes() {
            return Err(SenseError::Bounds(String::from_str("frame over the session frame cap")));
        }
        let bytes_used = self.sessions[i].bytes_used;
        proof {
            assert(bytes_used + n <= 0xFFFF_FFFF_FFFF_FFFFu64 + 0xFFFF_FFFF_FFFF_FFFFu64);
        }
        if n > u64::MAX - bytes_used || bytes_used + n > policy.caps.session_cap_bytes() {
            return Err(SenseError::Bounds(String::from_str("session byte budget exhausted")));
        }
        if self.sessions[i].pending.len() >= policy.max_pending {
            return Err(SenseError::Bounds(String::from_str("session output queue full")));
        }
        let scfg = policy.call;
        let processed = self.run_with(&bf, &scfg, policy.determinism, policy.caps.max_frame_bytes());
        let out = match processed {
            Ok(out) => out,
            Err(e) => {
                return Err(e);
            },
        };
        if self.sessions[i].next_flow >= u64::MAX {
            return Err(SenseError::Bounds(String::from_str("flow identifiers exhausted")));
        }
        let hint = match bf.hint_mime() {
            Some(h) => Some(h),
            None => None,
        };
        let session = &mut self.sessions[i];
        let fid = bind_flow(&mut session.flows, &mut session.next_flow, bf.source_id.as_str(), hint);
        session.phase = SessionPhase::Active;
        session.bytes_used = bytes_used + n;
        session.pending.push((fid, out));
        proof {
            assert(self.sessions@[sid.0 as int].pending@.drop_last() =~= old(self).sessions@[sid.0
                as int].pending@);
        }
        Ok(fid)
    }
}


impl<T, A: Adapter<T>> Engine<T, A> {
    /// Non-blocking pull of every finished output buffered so far, oldest
    /// first. An unknown session is a configuration error; a closed session
    /// is a policy drop. After a successful poll the buffer is empty.
    pub fn poll(&mut self, sid: SessionId) -> (r: Result<
        Vec<(FlowId, SenseOut<T>)>,
        SenseError,
    >)
        ensures
            spec_core_eq(final (self), old(self)),
            final (self).sessions@.len() == old(self).sessions@.len(),
            !spec_sid_valid(old(self), sid) ==> (r matches Err(e) && e
                matches SenseError::Config(_)) && final (self).sessions@ == old(self).sessions@,
            spec_sid_valid(old(self), sid) ==> ({
                let s = old(self).sessions@[sid.0 as int];
                &&& (forall|i: int|
                    0 <= i < old(self).sessions@.len() && i != sid.0 as int
                        ==> final (self).sessions@[i] == old(self).sessions@[i])
                &&& (s.phase is Closed ==> (r matches Err(e) && e
                    matches SenseError::PolicyDrop(_)) && final (self).sessions@ == old(
                    self,
                ).sessions@)
                &&& (s.phase !is Closed ==> (r matches Ok(items) && items@ == s.pending@ && ({
                    let s2 = final (self).sessions@[sid.0 as int];
                    &&& s2.pending@.len() == 0
                    &&& s2.phase == s.phase
                    &&& s2.policy == s.policy
                    &&& s2.close_reason == s.close_reason
                    &&& s2.flows == s.flows
                    &&& s2.next_flow == s.next_flow
                    &&& s2.bytes_used == s.bytes_used
                })))
            }),
    {
        let i = sid.0 as usize;
        if !(sid.0 < self.sessions.len() as u64) {
            return Err(SenseError::Config(String::from_str("unknown session")));
        }
        if matches!(self.sessions[i].phase, SessionPhase::Closed) {
            return Err(SenseError::PolicyDrop("session closed"));
        }
        let session = &mut self.sessions[i];
        let mut drained: Vec<(FlowId, SenseOut<T>)> = Vec::new();
        std::mem::swap(&mut drained, &mut session.pending);
        Ok(drained)
    }

    /// Drains pending work. In this engine every accepted frame is fully
    /// processed at `ingest`, so nothing can still be in flight: flush only
    /// confirms the session is usable; buffered outputs stay for `poll`.
    pub fn flush(&mut self, sid: SessionId) -> (r: Result<(), SenseError>)
        ensures
            spec_core_eq(final (self), old(self)),
            final (self).sessions@ == old(self).sessions@,
            !spec_sid_valid(old(self), sid) ==> (r matches Err(e) && e
                matches SenseError::Config(_)),
            spec_sid_valid(old(self), sid) ==> ({
                let s = old(self).sessions@[sid.0 as int];
                &&& (s.phase is Closed ==> (r matches Err(e) && e
                    matches SenseError::PolicyDrop(_)))
                &&& (s.phase !is Closed ==> r is Ok)
            }),
    {
        let i = sid.0 as usize;
        if !(sid.0 < self.sessions.len() as u64) {
            return Err(SenseError::Config(String::from_str("unknown session")));
        }
        if matches!(self.sessions[i].phase, SessionPhase::Closed) {
            return Err(SenseError::PolicyDrop("session closed"));
        }
        Ok(())
    }

    /// Closes a session, recording the reason for audit and releasing its
    /// buffered outputs. No transition leaves Closed: closing an already
    /// closed session is a policy drop, and the recorded reason stands.
    pub fn close(&mut self, sid: SessionId, reason: CloseReason) -> (r: Result<(), SenseError>)
        ensures
            spec_core_eq(final (self), old(self)),
            final (self).sessions@.len() == old(self).sessions@.len(),
            !spec_sid_valid(old(self), sid) ==> (r matches Err(e) && e
                matches SenseError::Config(_)) && final (self).sessions@ == old(self).sessions@,
            spec_sid_valid(old(self), sid) ==> ({
                let s = old(self).sessions@[sid.0 as int];
                &&& (forall|i: int|
                    0 <= i < old(self).sessions@.len() && i != sid.0 as int
                        ==> final (self).sessions@[i] == old(self).sessions@[i])
                &&& (s.phase is Closed ==> (r matches Err(e) && e
                    matches SenseError::PolicyDrop(_)) && final (self).sessions@ == old(
                    self,
                ).sessions@)
                &&& (s.phase !is Closed ==> (r is Ok && ({
                    let s2 = final (self).sessions@[sid.0 as int];
                    &&& s2.phase == SessionPhase::Closed
                    &&& (s2.close_reason matches Some(x) && x == reason)
                    &&& s2.pending@.len() == 0
                    &&& s2.policy == s.policy
                    &&& s2.flows == s.flows
                    &&& s2.next_flow == s.next_flow
                    &&& s2.bytes_used == s.bytes_used
                })))
            }),
    {
        let i = sid.0 as usize;
        if !(sid.0 < self.sessions.len() as u64) {
            return Err(SenseError::Config(String::from_str("unknown session")));
        }
        if matches!(self.sessions[i].phase, SessionPhase::Closed) {
            return Err(SenseError::PolicyDrop("session closed"));
        }
        let session = &mut self.sessions[i];
        session.phase = SessionPhase::Closed;
        session.close_reason = Some(reason);
        session.pending.clear();
        Ok(())
    }
}

} // verus!
