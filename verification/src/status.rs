//! Processing outcome classification used across adapters, detector and engine.
//!
//! The ordering reflects severity: `Ok < Warn < Degraded < Fail`. Severity is
//! compared through the stable numeric code, and `worst` aggregates the
//! severity of several pipeline steps.

use vstd::prelude::*;

verus! {

/// Health of a pipeline step or of a whole run.
#[derive(Copy, Clone, Debug, PartialEq, Eq, Structural, Hash)]
pub enum Status {
    /// Nominal result.
    Okay,
    /// Noteworthy but fine (e.g. a resample was applied).
    Warn,
    /// A fallback path was taken; output exists but quality was reduced.
    Degraded,
    /// Hard failure; no usable output from this step.
    Fail,
}

impl Status {
    /// Monotonic severity code (0..=3), stable for logs and cross-boundary use.
    /// The numbers are fixed: they may be appended to, never reordered.
    pub open spec fn spec_code(self) -> u8 {
        match self {
            Status::Okay => 0,
            Status::Warn => 1,
            Status::Degraded => 2,
            Status::Fail => 3,
        }
    }

    /// Exec mirror of [`Status::spec_code`].
    #[verifier::when_used_as_spec(spec_code)]
    pub fn code(self) -> (c: u8)
        ensures
            c == self.spec_code(),
    {
        match self {
            Status::Okay => 0,
            Status::Warn => 1,
            Status::Degraded => 2,
            Status::Fail => 3,
        }
    }

    /// Recover a status from its stable severity code.
    pub fn from_code(c: u8) -> (r: Option<Status>)
        ensures
            c <= 3 ==> (r matches Some(s) && s.spec_code() == c),
            c > 3 ==> r is None,
    {
        match c {
            0 => Some(Status::Okay),
            1 => Some(Status::Warn),
            2 => Some(Status::Degraded),
            3 => Some(Status::Fail),
            _ => None,
        }
    }

    /// True if the pipeline produced a clean result.
    pub fn is_ok(self) -> (r: bool)
        ensures
            r == (self == Status::Okay),
    {
        matches!(self, Status::Okay)
    }

    /// True if the result is usable without retry (Ok or Warn).
    pub fn is_acceptable(self) -> (r: bool)
        ensures
            r == (self == Status::Okay || self == Status::Warn),
    {
        matches!(self, Status::Okay | Status::Warn)
    }

    /// True if quality was reduced but an output exists.
    pub fn is_degraded(self) -> (r: bool)
        ensures
            r == (self == Status::Degraded),
    {
        matches!(self, Status::Degraded)
    }

    /// True if the operation failed and produced no usable output.
    pub fn is_fail(self) -> (r: bool)
        ensures
            r == (self == Status::Fail),
    {
        matches!(self, Status::Fail)
    }

    /// Stable lowercase name for metrics and sidecars.
    pub fn as_str(self) -> (r: &'static str)
        ensures
            r@ == self.spec_name(),
    {
        match self {
            Status::Okay => "ok",
            Status::Warn => "warn",
            Status::Degraded => "degraded",
            Status::Fail => "fail",
        }
    }

    /// The name returned by [`Status::as_str`].
    pub open spec fn spec_name(self) -> Seq<char> {
        match self {
            Status::Okay => "ok"@,
            Status::Warn => "warn"@,
            Status::Degraded => "degraded"@,
            Status::Fail => "fail"@,
        }
    }

    /// The more severe of two statuses, by the order Ok < Warn < Degraded < Fail.
    pub open spec fn spec_worst(a: Status, b: Status) -> Status {
        if a.spec_code() >= b.spec_code() {
            a
        } else {
            b
        }
    }

    /// Returns the worse (more severe) of two statuses.
    #[verifier::when_used_as_spec(spec_worst)]
    pub fn worst(a: Status, b: Status) -> (r: Status)
        ensures
            r == Status::spec_worst(a, b),
    {
        if a.code() >= b.code() {
            a
        } else {
            b
        }
    }
}

/// `worst` is commutative: the order of arguments never matters.
pub proof fn lemma_worst_commutative(a: Status, b: Status)
    ensures
        Status::spec_worst(a, b) == Status::spec_worst(b, a),
{
}

/// `worst` is associative: aggregation over a trace may be grouped freely.
pub proof fn lemma_worst_associative(a: Status, b: Status, c: Status)
    ensures
        Status::spec_worst(Status::spec_worst(a, b), c) == Status::spec_worst(
            a,
            Status::spec_worst(b, c),
        ),
{
}

/// `worst` is idempotent: repeating a step's status does not change the aggregate.
pub proof fn lemma_worst_idempotent(a: Status)
    ensures
        Status::spec_worst(a, a) == a,
{
}

/// `worst` respects the total order Ok < Warn < Degraded < Fail: it returns one
/// of its arguments, its severity code is the maximum of the two, and it
/// returns the second argument exactly when the first is no worse than it.
pub proof fn lemma_worst_respects_order(a: Status, b: Status)
    ensures
        Status::spec_worst(a, b) == a || Status::spec_worst(a, b) == b,
        Status::spec_worst(a, b).spec_code() >= a.spec_code(),
        Status::spec_worst(a, b).spec_code() >= b.spec_code(),
        a.spec_code() == b.spec_code() ==> a == b,
        Status::spec_worst(a, b) == b <==> a.spec_code() <= b.spec_code(),
{
}

} // verus!
