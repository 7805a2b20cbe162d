//! Determinism and budget policy signals, and the embeddings shape.

use vstd::prelude::*;

verus! {

/// Determinism grades, strictest first: `D1` forensic (bit-exact), `D2`
/// evaluation default (fixed order, seeded), `D3` research (best effort).
#[derive(Clone, Copy, Debug, PartialEq, Eq, Structural, Hash)]
pub enum Determinism {
    /// Forensic, bit-exact; may force single-threaded execution in a flow.
    D1,
    /// Evaluation default: fixed transform order, fixed grids, seeded ops.
    D2,
    /// Research: best-effort nondeterministic optimisations allowed.
    D3,
}

/// Budget classes: caps and latency envelopes chosen by the caller.
#[derive(Clone, Copy, Debug, PartialEq, Eq, Structural, Hash)]
pub enum BudgetClass {
    /// Low.
    L,
    /// Medium.
    M,
    /// High.
    H,
}

/// Randomness seed passed to adapters to pin stochastic steps under the two
/// deterministic grades.
#[derive(Clone, Copy, Debug, PartialEq, Eq, Structural, Hash)]
pub struct RandSeed(pub u64);

/// Embeddings shape: `n` rows of width `d_model`, both nonzero when
/// well-formed (see [`EmbeddingsShape::wf`]).
#[derive(Clone, Copy, Debug, PartialEq, Eq, Structural, Hash)]
pub struct EmbeddingsShape {
    /// Number of rows (tokens or patches).
    pub n: u32,
    /// Embedding width.
    pub d_model: u16,
}

impl EmbeddingsShape {
    /// Both dimensions are nonzero.
    pub open spec fn wf(&self) -> bool {
        self.n >= 1 && self.d_model >= 1
    }

    /// Total number of scalar values in a buffer of this shape, as `u64`;
    /// the product always fits.
    pub fn len_u64(&self) -> (r: u64)
        ensures
            r == self.n * self.d_model,
    {
        let n64 = self.n as u64;
        let d64 = self.d_model as u64;
        proof {
            assert(n64 * d64 <= 0xFFFF_FFFFu64 * 0xFFFFu64) by (nonlinear_arith)
                requires
                    n64 <= 0xFFFF_FFFFu64,
                    d64 <= 0xFFFFu64,
            ;
        }
        n64 * d64
    }

    /// Total number of scalar values in a buffer of this shape.
    pub fn len(&self) -> (r: usize)
        requires
            self.n * self.d_model <= usize::MAX,
        ensures
            r == self.n * self.d_model,
    {
        (self.n as usize) * (self.d_model as usize)
    }
}

} // verus!
