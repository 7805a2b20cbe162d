//! Invariant checks over adapter output.
//!
//! The engine calls [`validate_adapter_out`] after every adapter invocation;
//! adapters never call it themselves. The check has no side effects; the
//! first violated invariant short-circuits with an Internal-class error
//! naming the mismatch.

use vstd::prelude::*;
use vstd::string::StringExecFns;

use crate::adapter::AdapterOut;
use crate::adapter::eq_hash8;
use crate::error::SenseError;
use crate::numfmt::spec_dec;
use crate::numfmt::u64_to_dec;

verus! {

/// The message reported when the embedding buffer length does not match the
/// declared shape, naming the two conflicting values.
pub open spec fn spec_emb_len_message(got: nat, expected: nat) -> Seq<char> {
    "embeddings length "@ + spec_dec(got) + " != expected "@ + spec_dec(expected)
        + " (n*d_model)"@
}

/// Checks the three invariants of an adapter output, in order: the buffer
/// length equals `n * d_model`; the sidecar's shape record, if present,
/// equals the declared shape; the sidecar's evidence mirror equals the
/// evidence digest. The first violation returns an Internal error naming the
/// mismatched invariant; an output passes exactly when it is
/// [`AdapterOut::valid`].
pub fn validate_adapter_out<T>(out: &AdapterOut<T>) -> (r: Result<(), SenseError>)
    ensures
        r is Ok <==> out.valid(),
        !out.inv_emb_len() ==> (r matches Err(e) && e matches SenseError::Internal(m) && m@
            == spec_emb_len_message(out.emb@.len(), (out.shape.n * out.shape.d_model) as nat)),
        out.inv_emb_len() && !out.inv_sidecar_lengths() ==> (r matches Err(e) && e
            matches SenseError::Internal(m) && m@ == "sidecar.lengths != shape"@),
        out.inv_emb_len() && out.inv_sidecar_lengths() && !out.inv_evidence_mirror() ==> (r
            matches Err(e) && e matches SenseError::Internal(m) && m@
            == "sidecar.evidence_hash8 mismatch"@),
{
    let expected = out.shape.len_u64();
    if out.emb.len() as u64 != expected {
        let mut msg = String::from_str("embeddings length ");
        let got_str = u64_to_dec(out.emb.len() as u64);
        msg.append(got_str.as_str());
        msg.append(" != expected ");
        let expected_str = u64_to_dec(expected);
        msg.append(expected_str.as_str());
        msg.append(" (n*d_model)");
        return Err(SenseError::Internal(msg));
    }
    match out.sidecar.lengths {
        Some(l) => {
            if !(l.n == out.shape.n && l.d_model == out.shape.d_model) {
                return Err(SenseError::Internal(String::from_str("sidecar.lengths != shape")));
            }
        },
        None => {},
    }
    if !eq_hash8(&out.sidecar.evidence_hash8, &out.evidence.hash8) {
        return Err(SenseError::Internal(String::from_str("sidecar.evidence_hash8 mismatch")));
    }
    Ok(())
}

} // verus!
