use sense_core::Adapter;
use sense_core::AdapterCtx;
use sense_core::AdapterOut;
use sense_core::BackendInfo;
use sense_core::ByteFrame;
use sense_core::Caps;
use sense_core::CloseReason;
use sense_core::DType;
use sense_core::Determinism;
use sense_core::EmbeddingsShape;
use sense_core::Engine;
use sense_core::EngineCfg;
use sense_core::EvidenceHandle;
use sense_core::FlowPolicy;
use sense_core::InspectPolicy;
use sense_core::Layout;
use sense_core::Modality;
use sense_core::Phase;
use sense_core::RandSeed;
use sense_core::SenseCfg;
use sense_core::SenseError;
use sense_core::SessionId;
use sense_core::Sidecar;
use sense_core::Status;

struct TestAdapter {
    m: Modality,
    d: u16,
    fail: bool,
}

impl Adapter<f32> for TestAdapter {
    fn id(&self) -> &'static str {
        "test.v1"
    }

    fn modality(&self) -> Modality {
        self.m
    }

    fn d_model(&self) -> u16 {
        self.d
    }

    fn process(
        &self,
        frame: &ByteFrame<'_>,
        ctx: &AdapterCtx<'_>,
    ) -> Result<AdapterOut<f32>, SenseError> {
        if self.fail {
            return Err(SenseError::Decode(String::from("synthetic decode failure")));
        }
        let evidence = EvidenceHandle::new_ingest(frame.source_id.as_str(), frame.data.as_slice());
        let sidecar = Sidecar::empty(ctx.backend);
        let shape = EmbeddingsShape { n: 2, d_model: self.d };
        let out = AdapterOut::new(
            vec![0.5f32; 2 * self.d as usize],
            shape,
            evidence,
            sidecar,
            Status::Okay,
        );
        Ok(out)
    }
}

fn backend() -> BackendInfo {
    BackendInfo { device: "cpu", dtype: DType::F32, layout: Layout::RowMajor, threads: 1 }
}

fn engine_with(adapters: Vec<TestAdapter>) -> Engine<f32, TestAdapter> {
    Engine::new(EngineCfg::default(), backend(), RandSeed(7), adapters)
        .expect("registration is valid")
}

fn default_engine() -> Engine<f32, TestAdapter> {
    engine_with(vec![
        TestAdapter { m: Modality::Text, d: 8, fail: false },
        TestAdapter { m: Modality::Binary, d: 4, fail: false },
    ])
}

fn frame(bytes: &[u8]) -> ByteFrame<'static> {
    ByteFrame::from_owned(bytes.to_vec(), "mem", None)
}

#[test]
fn duplicate_modality_is_config_error() {
    let r = Engine::<f32, TestAdapter>::new(
        EngineCfg::default(),
        backend(),
        RandSeed(0),
        vec![
            TestAdapter { m: Modality::Text, d: 8, fail: false },
            TestAdapter { m: Modality::Text, d: 16, fail: false },
            TestAdapter { m: Modality::Binary, d: 4, fail: false },
        ],
    );
    assert!(matches!(r, Err(SenseError::Config(_))));
}

#[test]
fn missing_binary_adapter_is_config_error() {
    let r = Engine::<f32, TestAdapter>::new(
        EngineCfg::default(),
        backend(),
        RandSeed(0),
        vec![TestAdapter { m: Modality::Text, d: 8, fail: false }],
    );
    assert!(matches!(r, Err(SenseError::Config(_))));
}

#[test]
fn disabled_family_is_config_error() {
    let mut cfg = EngineCfg::default();
    cfg.features.text = false;
    let r = Engine::<f32, TestAdapter>::new(
        cfg,
        backend(),
        RandSeed(0),
        vec![
            TestAdapter { m: Modality::Text, d: 8, fail: false },
            TestAdapter { m: Modality::Binary, d: 4, fail: false },
        ],
    );
    assert!(matches!(r, Err(SenseError::Config(_))));
}

#[test]
fn process_routes_text_and_orders_trace() {
    let engine = default_engine();
    let out = engine.process(&frame(b"hello world"), &SenseCfg::default()).expect("processes");
    assert_eq!(out.d_model, 8);
    assert_eq!(out.emb.len(), 16);
    assert!(matches!(out.trace[0].phase, Phase::Detector));
    assert!(out.trace[0].params.contains("enc=utf8"));
    assert!(matches!(out.status, Status::Okay));
}

#[test]
fn process_default_view_is_agent_safe() {
    let engine = default_engine();
    let out = engine.process(&frame(b"hello world"), &SenseCfg::default()).expect("processes");
    assert!(out.evidence.is_none());
    assert!(out.sidecar.is_none());
    assert!(out.imprints.is_none());
}

#[test]
fn process_inspection_populates_diagnostics() {
    let engine = default_engine();
    let cfg = SenseCfg {
        inspect: InspectPolicy {
            include_evidence: true,
            include_sidecar: true,
            include_imprints: true,
        },
        ..SenseCfg::default()
    };
    let out = engine.process(&frame(b"hello world"), &cfg).expect("processes");
    let evidence = out.evidence.expect("evidence included");
    assert_eq!(&evidence.hash8, &blake3::hash(b"hello world").as_bytes()[..8]);
    let sidecar = out.sidecar.expect("sidecar included");
    assert_eq!(sidecar.evidence_hash8, evidence.hash8);
}

#[test]
fn unmatched_modality_falls_back_to_binary() {
    // No vision adapter is registered: a PNG routes to the binary adapter.
    let engine = default_engine();
    let out = engine.process(&frame(&[0x89, b'P', b'N', b'G', 13, 10, 0x1A, 10]), &SenseCfg::default())
        .expect("processes");
    assert_eq!(out.d_model, 4);
}

#[test]
fn failing_adapter_retries_binary_with_guard_tag() {
    let engine = engine_with(vec![
        TestAdapter { m: Modality::Text, d: 8, fail: true },
        TestAdapter { m: Modality::Binary, d: 4, fail: false },
    ]);
    let out = engine.process(&frame(b"hello world"), &SenseCfg::default()).expect("fail-soft");
    assert_eq!(out.d_model, 4);
    assert!(matches!(out.trace[0].phase, Phase::Detector));
    assert!(matches!(out.trace[1].phase, Phase::Guard));
    let reason = out.trace[1].reason.clone().expect("guard carries the original reason");
    assert_eq!(reason.message, "synthetic decode failure");
    assert!(matches!(out.status, Status::Degraded));
}

#[test]
fn failing_binary_adapter_surfaces_error() {
    let engine = engine_with(vec![TestAdapter { m: Modality::Binary, d: 4, fail: true }]);
    let r = engine.process(&frame(&[0x80, 0x00, 0xFE]), &SenseCfg::default());
    assert!(matches!(r, Err(SenseError::Decode(_))));
}

#[test]
fn oversized_frame_is_bounds_error() {
    let mut cfg = EngineCfg::default();
    cfg.caps.max_frame_mb = 0;
    let engine = Engine::new(
        cfg,
        backend(),
        RandSeed(0),
        vec![TestAdapter { m: Modality::Binary, d: 4, fail: false }],
    )
    .expect("valid registration");
    let r = engine.process(&frame(b"a"), &SenseCfg::default());
    assert!(matches!(r, Err(SenseError::Bounds(_))));
}

#[test]
fn process_embeddings_strips_diagnostics() {
    let engine = default_engine();
    let v = engine.process_embeddings(&frame(b"hello world"), &SenseCfg::default())
        .expect("processes");
    assert_eq!(v.d_model, 8);
    assert_eq!(v.emb.len(), 16);
    assert!(matches!(v.status, Status::Okay));
}

fn policy() -> FlowPolicy {
    FlowPolicy {
        caps: Caps::default(),
        determinism: Determinism::D2,
        max_pending: 4,
        call: SenseCfg::default(),
    }
}

#[test]
fn session_lifecycle_ingest_poll_close() {
    let mut engine = default_engine();
    let sid = engine.start_session(policy());
    let f1 = engine.ingest(sid, frame(b"first chunk")).expect("accepted");
    let f2 = engine.ingest(sid, frame(b"second chunk")).expect("accepted");
    assert_eq!(f1, f2, "same source and hint bind the same flow");
    engine.flush(sid).expect("flush on an active session");
    let items = engine.poll(sid).expect("poll drains");
    assert_eq!(items.len(), 2);
    assert_eq!(items[0].0, f1);
    let empty = engine.poll(sid).expect("poll again");
    assert!(empty.is_empty());
    engine.close(sid, CloseReason::CallerRequested).expect("close");
    assert!(matches!(engine.ingest(sid, frame(b"late")), Err(SenseError::PolicyDrop(_))));
    assert!(matches!(engine.poll(sid), Err(SenseError::PolicyDrop(_))));
    assert!(matches!(engine.flush(sid), Err(SenseError::PolicyDrop(_))));
    assert!(matches!(
        engine.close(sid, CloseReason::CallerRequested),
        Err(SenseError::PolicyDrop(_))
    ));
}

#[test]
fn distinct_sources_bind_distinct_flows() {
    let mut engine = default_engine();
    let sid = engine.start_session(policy());
    let f1 = engine
        .ingest(sid, ByteFrame::from_owned(b"a".to_vec(), "cam:0", None))
        .expect("accepted");
    let f2 = engine
        .ingest(sid, ByteFrame::from_owned(b"b".to_vec(), "cam:1", None))
        .expect("accepted");
    assert_ne!(f1, f2);
}

#[test]
fn hint_distinguishes_flows() {
    let mut engine = default_engine();
    let sid = engine.start_session(policy());
    let plain = ByteFrame::from_owned(b"a".to_vec(), "cam:0", None);
    let hinted = ByteFrame::from_owned(b"b".to_vec(), "cam:0", None).with_mime("text/plain");
    let f1 = engine.ingest(sid, plain).expect("accepted");
    let f2 = engine.ingest(sid, hinted).expect("accepted");
    assert_ne!(f1, f2);
}

#[test]
fn session_rejects_oversized_frame() {
    let mut engine = default_engine();
    let mut p = policy();
    p.caps.max_frame_mb = 0;
    let sid = engine.start_session(p);
    assert!(matches!(engine.ingest(sid, frame(b"abc")), Err(SenseError::Bounds(_))));
}

#[test]
fn session_queue_depth_rejects_ingest() {
    let mut engine = default_engine();
    let mut p = policy();
    p.max_pending = 1;
    let sid = engine.start_session(p);
    engine.ingest(sid, frame(b"one")).expect("accepted");
    assert!(matches!(engine.ingest(sid, frame(b"two")), Err(SenseError::Bounds(_))));
    let items = engine.poll(sid).expect("drain");
    assert_eq!(items.len(), 1);
    engine.ingest(sid, frame(b"three")).expect("accepted after drain");
}

#[test]
fn unknown_session_is_config_error() {
    let mut engine = default_engine();
    let bogus = SessionId(42);
    assert!(matches!(engine.ingest(bogus, frame(b"x")), Err(SenseError::Config(_))));
    assert!(matches!(engine.poll(bogus), Err(SenseError::Config(_))));
    assert!(matches!(engine.flush(bogus), Err(SenseError::Config(_))));
    assert!(matches!(
        engine.close(bogus, CloseReason::TimedOut),
        Err(SenseError::Config(_))
    ));
}

#[test]
fn session_outputs_come_from_processing() {
    let mut engine = default_engine();
    let sid = engine.start_session(policy());
    engine.ingest(sid, frame(b"hello world")).expect("accepted");
    let items = engine.poll(sid).expect("drain");
    assert_eq!(items.len(), 1);
    let out = &items[0].1;
    assert_eq!(out.d_model, 8);
    assert!(matches!(out.trace[0].phase, Phase::Detector));
}

#[test]
fn sense_out_rows_are_width_sized() {
    let engine = default_engine();
    let mut out = engine.process(&frame(b"hello world"), &SenseCfg::default()).expect("processes");
    assert_eq!(out.row(0).len(), 8);
    assert_eq!(out.row(1).len(), 8);
    let before = out.trace.len();
    out.push_trace(sense_core::TraceTag::new(Phase::Guard, "note"));
    assert_eq!(out.trace.len(), before + 1);
}
