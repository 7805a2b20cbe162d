//! Ordered, structured log of routing and adaptation steps.
//!
//! A trace is an ordered sequence of [`TraceTag`]s; ordering is insertion
//! order and is part of the observable contract: the detector's tag always
//! precedes the adapter's tags. Each tag carries a pipeline phase, a name,
//! `key=value` parameters, a [`Status`], an optional [`Reason`] (required when
//! the status is not nominal) and zero or more byte or token ranges.

use vstd::prelude::*;
use vstd::string::StringExecFns;

use crate::numfmt::spec_dec;
use crate::numfmt::u64_to_dec;
use crate::status::Status;

verus! {

/// Pipeline phase that produced a tag.
#[derive(Debug, Clone, Copy, PartialEq, Eq, Structural)]
pub enum Phase {
    /// Header checks, BOM and encoding tests, container routing.
    Detector,
    /// Modality adapter entry and selection.
    Adapter,
    /// A concrete transform step (stft, patchify, projection, ...).
    Transform,
    /// Caps, timeouts and fallbacks.
    Guard,
}

impl Phase {
    /// The stable lowercase name of the phase.
    pub open spec fn spec_name(self) -> Seq<char> {
        match self {
            Phase::Detector => "detector"@,
            Phase::Adapter => "adapter"@,
            Phase::Transform => "transform"@,
            Phase::Guard => "guard"@,
        }
    }

    /// Exec mirror of [`Phase::spec_name`].
    pub fn as_str(self) -> (r: &'static str)
        ensures
            r@ == self.spec_name(),
    {
        match self {
            Phase::Detector => "detector",
            Phase::Adapter => "adapter",
            Phase::Transform => "transform",
            Phase::Guard => "guard",
        }
    }
}

/// Classification of a non-nominal reason.
#[derive(Debug, Clone, Copy, PartialEq, Eq, Structural)]
pub enum ReasonClass {
    /// Codec or parse failure.
    Decode,
    /// Size or time cap.
    Bounds,
    /// Invalid or missing settings.
    Config,
    /// Hardware or backend issue.
    Device,
    /// Malformed input.
    Format,
    /// Container handling (pdf, zip and the like).
    Container,
    /// Detector or adapter mismatch.
    Routing,
}

impl ReasonClass {
    /// The stable lowercase name of the class.
    pub open spec fn spec_name(self) -> Seq<char> {
        match self {
            ReasonClass::Decode => "decode"@,
            ReasonClass::Bounds => "bounds"@,
            ReasonClass::Config => "config"@,
            ReasonClass::Device => "device"@,
            ReasonClass::Format => "format"@,
            ReasonClass::Container => "container"@,
            ReasonClass::Routing => "routing"@,
        }
    }

    /// Exec mirror of [`ReasonClass::spec_name`].
    pub fn as_str(self) -> (r: &'static str)
        ensures
            r@ == self.spec_name(),
    {
        match self {
            ReasonClass::Decode => "decode",
            ReasonClass::Bounds => "bounds",
            ReasonClass::Config => "config",
            ReasonClass::Device => "device",
            ReasonClass::Format => "format",
            ReasonClass::Container => "container",
            ReasonClass::Routing => "routing",
        }
    }
}

/// Reason payload attached to a tag whose status is not nominal.
#[derive(Debug, Clone)]
pub struct Reason {
    /// Machine-readable class of the reason.
    pub class: ReasonClass,
    /// Free-form human-readable message.
    pub message: String,
}

impl Reason {
    /// A reason with the given class and message.
    pub fn new(class: ReasonClass, msg: &str) -> (r: Reason)
        ensures
            r.class == class,
            r.message@ == msg@,
    {
        Reason { class, message: String::from_str(msg) }
    }

    /// A codec or parse failure reason.
    pub fn decode(msg: &str) -> (r: Reason)
        ensures
            r.class == ReasonClass::Decode,
            r.message@ == msg@,
    {
        Reason::new(ReasonClass::Decode, msg)
    }

    /// A size or time cap reason.
    pub fn bounds(msg: &str) -> (r: Reason)
        ensures
            r.class == ReasonClass::Bounds,
            r.message@ == msg@,
    {
        Reason::new(ReasonClass::Bounds, msg)
    }

    /// An invalid-settings reason.
    pub fn config(msg: &str) -> (r: Reason)
        ensures
            r.class == ReasonClass::Config,
            r.message@ == msg@,
    {
        Reason::new(ReasonClass::Config, msg)
    }

    /// A hardware or backend reason.
    pub fn device(msg: &str) -> (r: Reason)
        ensures
            r.class == ReasonClass::Device,
            r.message@ == msg@,
    {
        Reason::new(ReasonClass::Device, msg)
    }

    /// A malformed-input reason.
    pub fn format(msg: &str) -> (r: Reason)
        ensures
            r.class == ReasonClass::Format,
            r.message@ == msg@,
    {
        Reason::new(ReasonClass::Format, msg)
    }

    /// A container-handling reason.
    pub fn container(msg: &str) -> (r: Reason)
        ensures
            r.class == ReasonClass::Container,
            r.message@ == msg@,
    {
        Reason::new(ReasonClass::Container, msg)
    }

    /// A routing-mismatch reason.
    pub fn routing(msg: &str) -> (r: Reason)
        ensures
            r.class == ReasonClass::Routing,
            r.message@ == msg@,
    {
        Reason::new(ReasonClass::Routing, msg)
    }
}

/// A byte or token range a step pertains to; `end` is exclusive.
#[derive(Debug, Clone, Copy, PartialEq, Eq, Structural)]
pub struct Range {
    /// First covered offset.
    pub start: u64,
    /// One past the last covered offset.
    pub end: u64,
}

/// What appending `key=value` does to a parameter string: parameters are
/// comma-separated in insertion order.
pub open spec fn spec_param_append(p: Seq<char>, key: Seq<char>, value: Seq<char>) -> Seq<char> {
    if p.len() == 0 {
        key + "="@ + value
    } else {
        p + ", "@ + key + "="@ + value
    }
}

/// One trace step, with a stable schema and ordering.
#[derive(Debug, Clone)]
pub struct TraceTag {
    /// Pipeline phase that produced the step.
    pub phase: Phase,
    /// Step name ("utf8", "stft", "patchify", ...).
    pub name: String,
    /// Comma-separated `key=value` parameters, in insertion order.
    pub params: String,
    /// Health of this step.
    pub status: Status,
    /// Set when `status` is not nominal.
    pub reason: Option<Reason>,
    /// Byte or token ranges this step covers.
    pub spans: Vec<Range>,
}

impl TraceTag {
    /// A nominal tag with no parameters, reason or spans.
    pub fn new(phase: Phase, name: &str) -> (r: TraceTag)
        ensures
            r.phase == phase,
            r.name@ == name@,
            r.params@ == Seq::<char>::empty(),
            r.status == Status::Okay,
            r.reason is None,
            r.spans@ == Seq::<Range>::empty(),
    {
        TraceTag {
            phase,
            name: String::from_str(name),
            params: String::new(),
            status: Status::Okay,
            reason: None,
            spans: Vec::new(),
        }
    }

    /// Appends `key=value` to the parameters, comma-separating them.
    pub fn param(self, key: &str, value: &str) -> (r: TraceTag)
        ensures
            r.params@ == spec_param_append(self.params@, key@, value@),
            r.phase == self.phase,
            r.name == self.name,
            r.status == self.status,
            r.reason == self.reason,
            r.spans == self.spans,
    {
        let mut r = self;
        r.param_kv_mut(key, value);
        r
    }

    /// In-place variant of [`TraceTag::param`].
    pub fn param_kv_mut(&mut self, key: &str, value: &str)
        ensures
            final (self).params@ == spec_param_append(old(self).params@, key@, value@),
            final (self).phase == old(self).phase,
            final (self).name == old(self).name,
            final (self).status == old(self).status,
            final (self).reason == old(self).reason,
            final (self).spans == old(self).spans,
    {
        if !self.params.as_str().is_empty() {
            self.params.append(", ");
        }
        self.params.append(key);
        self.params.append("=");
        self.params.append(value);
    }

    /// Appends `key=value` only when a value is present.
    pub fn param_opt(self, key: &str, value: Option<&str>) -> (r: TraceTag)
        ensures
            match value {
                Some(v) => r.params@ == spec_param_append(self.params@, key@, v@),
                None => r.params == self.params,
            },
            r.phase == self.phase,
            r.name == self.name,
            r.status == self.status,
            r.reason == self.reason,
            r.spans == self.spans,
    {
        match value {
            Some(v) => self.param(key, v),
            None => self,
        }
    }

    /// Marks the step Warn with an optional reason.
    pub fn warn(self, reason: Option<Reason>) -> (r: TraceTag)
        ensures
            r.status == Status::Warn,
            r.reason == reason,
            r.phase == self.phase,
            r.name == self.name,
            r.params == self.params,
            r.spans == self.spans,
    {
        TraceTag { status: Status::Warn, reason, ..self }
    }

    /// Marks the step Degraded with an optional reason.
    pub fn degraded(self, reason: Option<Reason>) -> (r: TraceTag)
        ensures
            r.status == Status::Degraded,
            r.reason == reason,
            r.phase == self.phase,
            r.name == self.name,
            r.params == self.params,
            r.spans == self.spans,
    {
        TraceTag { status: Status::Degraded, reason, ..self }
    }

    /// Marks the step Fail; a reason is mandatory here.
    pub fn fail(self, reason: Reason) -> (r: TraceTag)
        ensures
            r.status == Status::Fail,
            r.reason matches Some(x) && x == reason,
            r.phase == self.phase,
            r.name == self.name,
            r.params == self.params,
            r.spans == self.spans,
    {
        TraceTag { status: Status::Fail, reason: Some(reason), ..self }
    }

    /// Adds a covered byte or token range.
    pub fn range(self, start: u64, end: u64) -> (r: TraceTag)
        ensures
            r.spans@ == self.spans@.push(Range { start, end }),
            r.phase == self.phase,
            r.name == self.name,
            r.params == self.params,
            r.status == self.status,
            r.reason == self.reason,
    {
        let mut r = self;
        r.spans.push(Range { start, end });
        r
    }

    /// The compact single-line rendering of this tag; see [`TraceTag::fmt_compact`].
    pub open spec fn spec_compact(&self) -> Seq<char> {
        let head = self.phase.spec_name() + ":"@ + self.name@;
        let with_params = if self.params@.len() == 0 {
            head
        } else {
            head + " params='"@ + self.params@ + "'"@
        };
        let with_status = with_params + " status="@ + self.status.spec_name();
        let with_reason = match self.reason {
            Some(r) => with_status + " reason="@ + r.class.spec_name() + ":"@ + r.message@,
            None => with_status,
        };
        if self.spans@.len() == 0 {
            with_reason
        } else {
            with_reason + " ranges="@ + spec_spans(self.spans@)
        }
    }
}

/// The rendering of a list of spans: `[a..b],[c..d]`.
pub open spec fn spec_spans(spans: Seq<Range>) -> Seq<char>
    decreases spans.len(),
{
    if spans.len() == 0 {
        Seq::empty()
    } else if spans.len() == 1 {
        spec_span(spans[0])
    } else {
        spec_spans(spans.drop_last()) + ","@ + spec_span(spans.last())
    }
}

/// The rendering of one span: `[a..b]`.
pub open spec fn spec_span(s: Range) -> Seq<char> {
    "["@ + spec_dec(s.start as nat) + ".."@ + spec_dec(s.end as nat) + "]"@
}

impl TraceTag {
    /// Compact single-line form for logs, e.g.
    /// `detector:utf8 params='enc=utf8' status=ok`.
    pub fn fmt_compact(&self) -> (r: String)
        ensures
            r@ == self.spec_compact(),
    {
        let mut s = String::from_str(self.phase.as_str());
        s.append(":");
        s.append(self.name.as_str());
        if !self.params.as_str().is_empty() {
            s.append(" params='");
            s.append(self.params.as_str());
            s.append("'");
        }
        s.append(" status=");
        s.append(self.status.as_str());
        match &self.reason {
            Some(reason) => {
                s.append(" reason=");
                s.append(reason.class.as_str());
                s.append(":");
                s.append(reason.message.as_str());
            },
            None => {},
        }
        if self.spans.len() > 0 {
            s.append(" ranges=");
            let n = self.spans.len();
            let mut i: usize = 0;
            while i < n
                invariant
                    n == self.spans@.len(),
                    n > 0,
                    i <= n,
                    s@ == self.spec_compact_prefix() + spec_spans(self.spans@.take(i as int)),
                decreases n - i,
            {
                if i > 0 {
                    s.append(",");
                }
                let sp = self.spans[i];
                s.append("[");
                let start_str = u64_to_dec(sp.start);
                s.append(start_str.as_str());
                s.append("..");
                let end_str = u64_to_dec(sp.end);
                s.append(end_str.as_str());
                s.append("]");
                proof {
                    assert(self.spans@.take(i + 1).drop_last() =~= self.spans@.take(i as int));
                    assert(self.spans@.take(i + 1).last() == self.spans@[i as int]);
                    if i > 0 {
                        assert(spec_spans(self.spans@.take(i + 1)) == spec_spans(
                            self.spans@.take(i as int),
                        ) + ","@ + spec_span(self.spans@[i as int]));
                    }
                }
                i = i + 1;
            }
            proof {
                assert(self.spans@.take(n as int) =~= self.spans@);
            }
        }
        s
    }

    /// The part of [`TraceTag::spec_compact`] before the rendered spans.
    pub open spec fn spec_compact_prefix(&self) -> Seq<char> {
        let head = self.phase.spec_name() + ":"@ + self.name@;
        let with_params = if self.params@.len() == 0 {
            head
        } else {
            head + " params='"@ + self.params@ + "'"@
        };
        let with_status = with_params + " status="@ + self.status.spec_name();
        let with_reason = match self.reason {
            Some(r) => with_status + " reason="@ + r.class.spec_name() + ":"@ + r.message@,
            None => with_status,
        };
        if self.spans@.len() == 0 {
            with_reason
        } else {
            with_reason + " ranges="@
        }
    }
}

} // verus!
