//! Unified error taxonomy across detector, adapters and engine.
//!
//! Kinds are closed per component, with `Internal` as the catch-all. Each kind
//! carries a conservative status hint used to classify outcomes, and a stable
//! numeric code for telemetry.

use vstd::prelude::*;

use crate::status::Status;

verus! {

/// Stable error codes for telemetry. Additive; never reordered.
#[derive(Clone, Copy, Debug, PartialEq, Eq, Structural, Hash)]
pub enum ErrorCode {
    /// Codec or parse failure.
    Decode,
    /// Malformed input.
    Format,
    /// Size or time cap exceeded.
    Bounds,
    /// Hardware or backend unavailable.
    Device,
    /// Invalid or missing settings.
    Config,
    /// Container handling problem (pdf/zip etc.).
    Container,
    /// A backend library returned an error.
    Backend,
    /// Per-item decode timeout.
    Timeout,
    /// Dropped by routing policy.
    PolicyDrop,
    /// Unexpected internal failure: a contract was broken.
    Internal,
}

impl ErrorCode {
    /// The fixed telemetry number of this code. The numbers are append-only.
    pub open spec fn spec_number(self) -> u16 {
        match self {
            ErrorCode::Decode => 1,
            ErrorCode::Format => 2,
            ErrorCode::Bounds => 3,
            ErrorCode::Device => 4,
            ErrorCode::Config => 5,
            ErrorCode::Container => 6,
            ErrorCode::Backend => 7,
            ErrorCode::Timeout => 8,
            ErrorCode::PolicyDrop => 9,
            ErrorCode::Internal => 255,
        }
    }

    /// Exec mirror of [`ErrorCode::spec_number`].
    #[verifier::when_used_as_spec(spec_number)]
    pub fn number(self) -> (n: u16)
        ensures
            n == self.spec_number(),
    {
        match self {
            ErrorCode::Decode => 1,
            ErrorCode::Format => 2,
            ErrorCode::Bounds => 3,
            ErrorCode::Device => 4,
            ErrorCode::Config => 5,
            ErrorCode::Container => 6,
            ErrorCode::Backend => 7,
            ErrorCode::Timeout => 8,
            ErrorCode::PolicyDrop => 9,
            ErrorCode::Internal => 255,
        }
    }
}

/// Unified error type across detector, adapters and engine.
///
/// Every failure of any component is representable here; no component raises
/// an unrecoverable runtime fault for any input.
#[derive(Clone, Debug)]
pub enum SenseError {
    /// Codec or parse failure; a usable fallback was or can be produced.
    Decode(String),
    /// Malformed input; no usable output.
    Format(String),
    /// A size or time cap was exceeded.
    Bounds(String),
    /// Hardware or backend unavailable; no usable output.
    Device(String),
    /// Bad or unsupported configuration; no usable output.
    Config(String),
    /// Container-specific problem; binary fallback encouraged.
    Container(String),
    /// A backend library returned an error.
    Backend(String),
    /// The per-item decode timeout elapsed.
    Timeout,
    /// Dropped by routing policy.
    PolicyDrop(&'static str),
    /// Unexpected internal failure: an invariant did not hold.
    Internal(String),
}

impl SenseError {
    /// Conservative status hint used to classify this error's outcome:
    /// kinds with a usable fallback map to Degraded, cap violations to Warn,
    /// and the rest to Fail.
    pub open spec fn spec_status_hint(&self) -> Status {
        match self {
            SenseError::Decode(_) => Status::Degraded,
            SenseError::Bounds(_) => Status::Warn,
            SenseError::Container(_) => Status::Degraded,
            SenseError::Backend(_) => Status::Degraded,
            SenseError::Timeout => Status::Degraded,
            SenseError::PolicyDrop(_) => Status::Degraded,
            SenseError::Format(_) => Status::Fail,
            SenseError::Device(_) => Status::Fail,
            SenseError::Config(_) => Status::Fail,
            SenseError::Internal(_) => Status::Fail,
        }
    }

    /// Exec mirror of [`SenseError::spec_status_hint`].
    #[verifier::when_used_as_spec(spec_status_hint)]
    pub fn status_hint(&self) -> (s: Status)
        ensures
            s == self.spec_status_hint(),
    {
        match self {
            SenseError::Decode(_) => Status::Degraded,
            SenseError::Bounds(_) => Status::Warn,
            SenseError::Container(_) => Status::Degraded,
            SenseError::Backend(_) => Status::Degraded,
            SenseError::Timeout => Status::Degraded,
            SenseError::PolicyDrop(_) => Status::Degraded,
            SenseError::Format(_) => Status::Fail,
            SenseError::Device(_) => Status::Fail,
            SenseError::Config(_) => Status::Fail,
            SenseError::Internal(_) => Status::Fail,
        }
    }

    /// The stable telemetry code of this error's kind.
    pub open spec fn spec_code(&self) -> ErrorCode {
        match self {
            SenseError::Decode(_) => ErrorCode::Decode,
            SenseError::Format(_) => ErrorCode::Format,
            SenseError::Bounds(_) => ErrorCode::Bounds,
            SenseError::Device(_) => ErrorCode::Device,
            SenseError::Config(_) => ErrorCode::Config,
            SenseError::Container(_) => ErrorCode::Container,
            SenseError::Backend(_) => ErrorCode::Backend,
            SenseError::Timeout => ErrorCode::Timeout,
            SenseError::PolicyDrop(_) => ErrorCode::PolicyDrop,
            SenseError::Internal(_) => ErrorCode::Internal,
        }
    }

    /// Exec mirror of [`SenseError::spec_code`].
    #[verifier::when_used_as_spec(spec_code)]
    pub fn code(&self) -> (c: ErrorCode)
        ensures
            c == self.spec_code(),
    {
        match self {
            SenseError::Decode(_) => ErrorCode::Decode,
            SenseError::Format(_) => ErrorCode::Format,
            SenseError::Bounds(_) => ErrorCode::Bounds,
            SenseError::Device(_) => ErrorCode::Device,
            SenseError::Config(_) => ErrorCode::Config,
            SenseError::Container(_) => ErrorCode::Container,
            SenseError::Backend(_) => ErrorCode::Backend,
            SenseError::Timeout => ErrorCode::Timeout,
            SenseError::PolicyDrop(_) => ErrorCode::PolicyDrop,
            SenseError::Internal(_) => ErrorCode::Internal,
        }
    }

    /// Human-readable message carried by this error, where one exists.
    pub fn message(&self) -> (r: Option<&str>)
        ensures
            match self {
                SenseError::Decode(m) => r matches Some(s) && s@ == m@,
                SenseError::Format(m) => r matches Some(s) && s@ == m@,
                SenseError::Bounds(m) => r matches Some(s) && s@ == m@,
                SenseError::Device(m) => r matches Some(s) && s@ == m@,
                SenseError::Config(m) => r matches Some(s) && s@ == m@,
                SenseError::Container(m) => r matches Some(s) && s@ == m@,
                SenseError::Backend(m) => r matches Some(s) && s@ == m@,
                SenseError::Timeout => r is None,
                SenseError::PolicyDrop(m) => r matches Some(s) && s@ == m@,
                SenseError::Internal(m) => r matches Some(s) && s@ == m@,
            },
    {
        match self {
            SenseError::Decode(m) => Some(m.as_str()),
            SenseError::Format(m) => Some(m.as_str()),
            SenseError::Bounds(m) => Some(m.as_str()),
            SenseError::Device(m) => Some(m.as_str()),
            SenseError::Config(m) => Some(m.as_str()),
            SenseError::Container(m) => Some(m.as_str()),
            SenseError::Backend(m) => Some(m.as_str()),
            SenseError::Timeout => None,
            SenseError::PolicyDrop(m) => Some(m),
            SenseError::Internal(m) => Some(m.as_str()),
        }
    }
}

/// Convenience result alias.
pub type SenseResult<T> = Result<T, SenseError>;

} // verus!
