use sense_core::AdapterOut;
use sense_core::BackendInfo;
use sense_core::ByteFrame;
use sense_core::DType;
use sense_core::EmbeddingsShape;
use sense_core::ErrorCode;
use sense_core::Modality;
use sense_core::EvidenceHandle;
use sense_core::EvidenceKind;
use sense_core::Layout;
use sense_core::Phase;
use sense_core::ReasonClass;
use sense_core::SenseError;
use sense_core::Sidecar;
use sense_core::Status;
use sense_core::TraceTag;
use sense_core::sense_dtype_t;
use sense_core::sense_embeddings_shape_t;
use sense_core::sense_layout_t;
use sense_core::sense_status_t;
use sense_core::short_hash_8;
use sense_core::short_hash_u64;
use sense_core::u64_to_dec;
use sense_core::validate_adapter_out;

fn backend() -> BackendInfo {
    BackendInfo { device: "cpu", dtype: DType::F32, layout: Layout::RowMajor, threads: 1 }
}

fn valid_out() -> AdapterOut<f32> {
    let payload = b"sample payload";
    let evidence = EvidenceHandle::new_ingest("mem", payload);
    let shape = EmbeddingsShape { n: 3, d_model: 4 };
    AdapterOut::new(vec![0.25f32; 12], shape, evidence, Sidecar::empty(backend()), Status::Okay)
}

#[test]
fn status_worst_laws_on_values() {
    // Commutative, associative, idempotent, and respecting the order.
    assert_eq!(
        Status::worst(Status::Warn, Status::Degraded),
        Status::worst(Status::Degraded, Status::Warn)
    );
    assert_eq!(
        Status::worst(Status::worst(Status::Okay, Status::Warn), Status::Fail),
        Status::worst(Status::Okay, Status::worst(Status::Warn, Status::Fail))
    );
    assert_eq!(Status::worst(Status::Degraded, Status::Degraded), Status::Degraded);
    assert_eq!(Status::worst(Status::Okay, Status::Warn), Status::Warn);
    assert_eq!(Status::worst(Status::Warn, Status::Degraded), Status::Degraded);
    assert_eq!(Status::worst(Status::Degraded, Status::Fail), Status::Fail);
    assert_eq!(Status::worst(Status::Fail, Status::Okay), Status::Fail);
}

#[test]
fn status_codes_are_stable() {
    assert_eq!(Status::Okay.code(), 0);
    assert_eq!(Status::Warn.code(), 1);
    assert_eq!(Status::Degraded.code(), 2);
    assert_eq!(Status::Fail.code(), 3);
    assert_eq!(Status::from_code(2), Some(Status::Degraded));
    assert_eq!(Status::from_code(9), None);
    assert_eq!(Status::Degraded.as_str(), "degraded");
    assert!(Status::Warn.is_acceptable());
    assert!(!Status::Degraded.is_acceptable());
    assert!(Status::Fail.is_fail());
}

#[test]
fn error_status_hints_follow_taxonomy() {
    assert_eq!(SenseError::Decode("x".into()).status_hint(), Status::Degraded);
    assert_eq!(SenseError::Container("x".into()).status_hint(), Status::Degraded);
    assert_eq!(SenseError::Backend("x".into()).status_hint(), Status::Degraded);
    assert_eq!(SenseError::Timeout.status_hint(), Status::Degraded);
    assert_eq!(SenseError::PolicyDrop("x").status_hint(), Status::Degraded);
    assert_eq!(SenseError::Bounds("x".into()).status_hint(), Status::Warn);
    assert_eq!(SenseError::Format("x".into()).status_hint(), Status::Fail);
    assert_eq!(SenseError::Device("x".into()).status_hint(), Status::Fail);
    assert_eq!(SenseError::Config("x".into()).status_hint(), Status::Fail);
    assert_eq!(SenseError::Internal("x".into()).status_hint(), Status::Fail);
}

#[test]
fn error_codes_are_stable() {
    assert_eq!(SenseError::Decode("x".into()).code(), ErrorCode::Decode);
    assert_eq!(ErrorCode::Decode.number(), 1);
    assert_eq!(ErrorCode::Timeout.number(), 8);
    assert_eq!(ErrorCode::Internal.number(), 255);
}

#[test]
fn trace_params_accumulate_in_order() {
    let tag = TraceTag::new(Phase::Transform, "stft").param("win", "1024").param("hop", "256");
    assert_eq!(tag.params, "win=1024, hop=256");
    assert_eq!(tag.name, "stft");
    assert!(matches!(tag.status, Status::Okay));
}

#[test]
fn trace_fmt_compact_exact() {
    let tag = TraceTag::new(Phase::Detector, "utf8").param("enc", "utf8");
    assert_eq!(tag.fmt_compact(), "detector:utf8 params='enc=utf8' status=ok");
    let warned = TraceTag::new(Phase::Guard, "cap").warn(Some(sense_core::Reason::bounds(
        "frame too large",
    )));
    assert_eq!(warned.fmt_compact(), "guard:cap status=warn reason=bounds:frame too large");
    let ranged = TraceTag::new(Phase::Adapter, "chunk").range(0, 1024).range(1024, 2048);
    assert_eq!(ranged.fmt_compact(), "adapter:chunk status=ok ranges=[0..1024],[1024..2048]");
}

#[test]
fn reason_shorthands_set_classes() {
    assert!(matches!(sense_core::Reason::decode("x").class, ReasonClass::Decode));
    assert!(matches!(sense_core::Reason::bounds("x").class, ReasonClass::Bounds));
    assert!(matches!(sense_core::Reason::config("x").class, ReasonClass::Config));
    assert!(matches!(sense_core::Reason::device("x").class, ReasonClass::Device));
    assert!(matches!(sense_core::Reason::format("x").class, ReasonClass::Format));
    assert!(matches!(sense_core::Reason::container("x").class, ReasonClass::Container));
    assert!(matches!(sense_core::Reason::routing("x").class, ReasonClass::Routing));
}

#[test]
fn dec_rendering_exact() {
    assert_eq!(u64_to_dec(0), "0");
    assert_eq!(u64_to_dec(7), "7");
    assert_eq!(u64_to_dec(90210), "90210");
    assert_eq!(u64_to_dec(u64::MAX), "18446744073709551615");
}

#[test]
fn frame_hash_round_trip() {
    let frame = ByteFrame::from_owned(b"some payload".to_vec(), "file://sample", None);
    let recomputed = frame.recompute_hash();
    assert_eq!(recomputed, frame.content_hash);
}

#[test]
fn frame_hash_matches_library_digest() {
    // The stored digest must be the real BLAKE3 digest, not an echo of the
    // payload: check against the crate computing it and a published vector.
    let frame = ByteFrame::from_owned(Vec::new(), "mem", None);
    assert_eq!(&frame.content_hash, blake3::hash(b"").as_bytes());
    assert_eq!(
        frame.hash_hex(),
        "af1349b9f5f9a1a6a0404dea36dcc9499bcb25c9adc112b7cc9a93cae41f3262"
    );
    assert_eq!(frame.short_id(), "af1349b9f5f9a1a6");
}

#[test]
fn short_hash_truncates_full_digest() {
    let payload = b"provenance anchor";
    let full = blake3::hash(payload);
    let short = short_hash_8(payload);
    assert_eq!(&short, &full.as_bytes()[..8]);
    assert_eq!(short_hash_u64(payload), u64::from_le_bytes(short));
}

#[test]
fn evidence_handle_anchors_bytes() {
    let handle = EvidenceHandle::new_ingest("mic:0", b"audio bytes");
    assert!(matches!(handle.kind, EvidenceKind::IngestContent));
    assert_eq!(handle.schema_ver, sense_core::EVIDENCE_SCHEMA_VER);
    assert_eq!(handle.source_id, "mic:0");
    assert_eq!(&handle.hash8, &blake3::hash(b"audio bytes").as_bytes()[..8]);
}

#[test]
fn frame_guard_max_size() {
    let frame = ByteFrame::from_owned(vec![0u8; 100], "mem", None);
    assert!(frame.clone().guard_max_size(100).is_some());
    assert!(frame.guard_max_size(99).is_none());
}

#[test]
fn validate_accepts_valid_output() {
    assert!(validate_adapter_out(&valid_out()).is_ok());
}

#[test]
fn validate_rejects_length_mismatch() {
    let mut out = valid_out();
    out.emb.pop();
    match validate_adapter_out(&out) {
        Err(SenseError::Internal(msg)) => {
            assert_eq!(msg, "embeddings length 11 != expected 12 (n*d_model)");
        }
        other => panic!("expected an internal error, got {:?}", other.map(|_| ())),
    }
}

#[test]
fn validate_rejects_sidecar_shape_mismatch() {
    let mut out = valid_out();
    out.sidecar.lengths = Some(EmbeddingsShape { n: 4, d_model: 3 });
    match validate_adapter_out(&out) {
        Err(SenseError::Internal(msg)) => assert_eq!(msg, "sidecar.lengths != shape"),
        other => panic!("expected an internal error, got {:?}", other.map(|_| ())),
    }
}

#[test]
fn validate_rejects_evidence_mirror_mismatch() {
    let mut out = valid_out();
    out.sidecar.evidence_hash8[0] ^= 0xFF;
    match validate_adapter_out(&out) {
        Err(SenseError::Internal(msg)) => assert_eq!(msg, "sidecar.evidence_hash8 mismatch"),
        other => panic!("expected an internal error, got {:?}", other.map(|_| ())),
    }
}

#[test]
fn validate_accepts_absent_sidecar_lengths() {
    let mut out = valid_out();
    out.sidecar.lengths = None;
    assert!(validate_adapter_out(&out).is_ok());
}

#[test]
fn embeddings_shape_len() {
    let shape = EmbeddingsShape { n: 3, d_model: 4 };
    assert_eq!(shape.len(), 12);
    assert_eq!(shape.len_u64(), 12);
}

#[test]
fn modality_codes_fixed() {
    assert_eq!(Modality::Text.code(), 0);
    assert_eq!(Modality::Audio.code(), 1);
    assert_eq!(Modality::Vision.code(), 2);
    assert_eq!(Modality::Binary.code(), 3);
    assert_eq!(Modality::Container.code(), 4);
    assert!(matches!(Modality::Container.adapter_slot(), Modality::Binary));
    assert!(matches!(Modality::Text.adapter_slot(), Modality::Text));
}

#[test]
fn dtype_layout_codes_fixed() {
    assert_eq!(DType::F32.code(), 0);
    assert_eq!(DType::F16.code(), 1);
    assert_eq!(DType::BF16.code(), 2);
    assert_eq!(Layout::RowMajor.code(), 0);
}

#[test]
fn ffi_mirrors_preserve_codes() {
    assert_eq!(sense_status_t::from_status(Status::Degraded).code(), Status::Degraded.code());
    assert_eq!(sense_status_t::from_status(Status::Fail).into_status(), Status::Fail);
    let d = sense_dtype_t::from_dtype(DType::BF16);
    assert!(matches!(d, sense_dtype_t::BF16));
    let l = sense_layout_t::from_layout(Layout::RowMajor);
    assert!(matches!(l, sense_layout_t::RowMajor));
    let s = sense_embeddings_shape_t::from_shape(EmbeddingsShape { n: 5, d_model: 64 });
    assert_eq!(s.n, 5);
    assert_eq!(s.d_model, 64);
}

#[test]
fn default_frame_is_well_formed_empty() {
    let frame = ByteFrame::default();
    assert!(frame.is_empty());
    assert_eq!(frame.content_hash, *blake3::hash(b"").as_bytes());
    assert_eq!(frame.source_id, "");
}
