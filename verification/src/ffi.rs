//! Cross-boundary mirrors of the stable enumerations.
//!
//! Status, numeric dtype and memory layout each have a fixed numbering,
//! append-only and never reordered, suitable for a stable representation
//! across a language boundary. The numbers live in the `code` functions;
//! conversion in either direction preserves them exactly.

use vstd::prelude::*;

use crate::determinism::EmbeddingsShape;
use crate::sidecar::DType;
use crate::sidecar::Layout;
use crate::status::Status;

verus! {

/// Mirror of [`Status`] with the same fixed numbering.
#[allow(non_camel_case_types)]
#[derive(Clone, Copy, Debug, PartialEq, Eq, Structural, Hash)]
pub enum sense_status_t {
    /// Code 0.
    Okay,
    /// Code 1.
    Warn,
    /// Code 2.
    Degraded,
    /// Code 3.
    Fail,
}

impl sense_status_t {
    /// The fixed cross-boundary number.
    pub open spec fn spec_code(self) -> u8 {
        match self {
            sense_status_t::Okay => 0,
            sense_status_t::Warn => 1,
            sense_status_t::Degraded => 2,
            sense_status_t::Fail => 3,
        }
    }

    /// Exec mirror of [`sense_status_t::spec_code`].
    #[verifier::when_used_as_spec(spec_code)]
    pub fn code(self) -> (c: u8)
        ensures
            c == self.spec_code(),
    {
        match self {
            sense_status_t::Okay => 0,
            sense_status_t::Warn => 1,
            sense_status_t::Degraded => 2,
            sense_status_t::Fail => 3,
        }
    }

    /// The mirror of a core status.
    pub open spec fn spec_mirror(s: Status) -> sense_status_t {
        match s {
            Status::Okay => sense_status_t::Okay,
            Status::Warn => sense_status_t::Warn,
            Status::Degraded => sense_status_t::Degraded,
            Status::Fail => sense_status_t::Fail,
        }
    }

    /// The core status a mirror stands for.
    pub open spec fn spec_core(self) -> Status {
        match self {
            sense_status_t::Okay => Status::Okay,
            sense_status_t::Warn => Status::Warn,
            sense_status_t::Degraded => Status::Degraded,
            sense_status_t::Fail => Status::Fail,
        }
    }

    /// The mirror of a core status; the number is preserved.
    pub fn from_status(s: Status) -> (r: sense_status_t)
        ensures
            r == sense_status_t::spec_mirror(s),
            r.spec_code() == s.spec_code(),
    {
        match s {
            Status::Okay => sense_status_t::Okay,
            Status::Warn => sense_status_t::Warn,
            Status::Degraded => sense_status_t::Degraded,
            Status::Fail => sense_status_t::Fail,
        }
    }

    /// Back to the core status; the number is preserved.
    pub fn into_status(self) -> (r: Status)
        ensures
            r == self.spec_core(),
            r.spec_code() == self.spec_code(),
    {
        match self {
            sense_status_t::Okay => Status::Okay,
            sense_status_t::Warn => Status::Warn,
            sense_status_t::Degraded => Status::Degraded,
            sense_status_t::Fail => Status::Fail,
        }
    }
}

/// Mirror of [`DType`] with the same fixed numbering.
#[allow(non_camel_case_types)]
#[derive(Clone, Copy, Debug, PartialEq, Eq, Structural, Hash)]
pub enum sense_dtype_t {
    /// Code 0.
    F32,
    /// Code 1.
    F16,
    /// Code 2.
    BF16,
}

impl sense_dtype_t {
    /// The fixed cross-boundary number.
    pub open spec fn spec_code(self) -> u8 {
        match self {
            sense_dtype_t::F32 => 0,
            sense_dtype_t::F16 => 1,
            sense_dtype_t::BF16 => 2,
        }
    }

    /// The mirror of a core dtype; the number is preserved.
    pub fn from_dtype(d: DType) -> (r: sense_dtype_t)
        ensures
            r.spec_code() == d.spec_code(),
    {
        match d {
            DType::F32 => sense_dtype_t::F32,
            DType::F16 => sense_dtype_t::F16,
            DType::BF16 => sense_dtype_t::BF16,
        }
    }
}

/// Mirror of [`Layout`] with the same fixed numbering.
#[allow(non_camel_case_types)]
#[derive(Clone, Copy, Debug, PartialEq, Eq, Structural, Hash)]
pub enum sense_layout_t {
    /// Code 0.
    RowMajor,
}

impl sense_layout_t {
    /// The fixed cross-boundary number.
    pub open spec fn spec_code(self) -> u8 {
        match self {
            sense_layout_t::RowMajor => 0,
        }
    }

    /// The mirror of a core layout; the number is preserved.
    pub fn from_layout(l: Layout) -> (r: sense_layout_t)
        ensures
            r.spec_code() == l.spec_code(),
    {
        match l {
            Layout::RowMajor => sense_layout_t::RowMajor,
        }
    }
}

/// Plain-field mirror of [`EmbeddingsShape`].
#[allow(non_camel_case_types)]
#[derive(Clone, Copy, Debug, PartialEq, Eq, Structural, Hash)]
pub struct sense_embeddings_shape_t {
    /// Number of rows.
    pub n: u32,
    /// Embedding width.
    pub d_model: u16,
}

impl sense_embeddings_shape_t {
    /// The mirror of a core shape; both dimensions are preserved.
    pub fn from_shape(s: EmbeddingsShape) -> (r: sense_embeddings_shape_t)
        ensures
            r.n == s.n,
            r.d_model == s.d_model,
    {
        sense_embeddings_shape_t { n: s.n, d_model: s.d_model }
    }
}

/// Converting a status across the boundary and back is the identity.
pub proof fn lemma_status_mirror_round_trip(s: Status)
    ensures
        sense_status_t::spec_mirror(s).spec_core() == s,
{
}

} // verus!
