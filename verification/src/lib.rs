//! Multimodal ingestion and routing core.
//!
//! The crate takes an opaque byte buffer of unknown origin, classifies it into
//! a content modality, dispatches it to a pluggable per-modality encoder
//! ("adapter"), and returns a result whose provenance, quality and determinism
//! are checked. The engine is a pure function of its inputs and configuration:
//! no I/O, no global state.

mod adapter;
mod bytes;
mod config;
mod constants;
mod detector;
mod determinism;
mod digest;
mod engine;
mod error;
mod evidence;
mod ffi;
mod frame;
mod hint;
mod numfmt;
mod session;
mod sidecar;
mod sniff;
mod status;
mod trace;
mod validators;

pub use bytes::Bytes;
pub use constants::D_MODEL_AUDIO;
pub use constants::D_MODEL_BINARY;
pub use constants::D_MODEL_TEXT;
pub use constants::D_MODEL_VISION;
pub use constants::DEFAULT_DECODE_TIMEOUT_MS;
pub use constants::DEFAULT_MAX_FRAME_MB;
pub use constants::DEFAULT_SESSION_CAP_MB;
pub use constants::EVIDENCE_SCHEMA_VER;
pub use constants::VISION_PATCH;
pub use digest::blake3_of;
pub use digest::content_hash32;
pub use evidence::EvidenceHandle;
pub use evidence::EvidenceKind;
pub use evidence::short_hash_8;
pub use evidence::short_hash_u64;
pub use evidence::spec_le_u64;
pub use frame::ByteFrame;
pub use frame::Hints;
pub use frame::Timestamp;
pub use frame::lemma_frame_hash_round_trip;
pub use numfmt::bytes_to_hex;
pub use numfmt::spec_dec;
pub use numfmt::spec_hex;
pub use numfmt::spec_ratio2;
pub use numfmt::u64_to_dec;

pub use error::ErrorCode;
pub use error::SenseError;
pub use error::SenseResult;
pub use status::Status;
pub use status::lemma_worst_associative;
pub use status::lemma_worst_commutative;
pub use status::lemma_worst_idempotent;
pub use status::lemma_worst_respects_order;
pub use trace::Phase;
pub use trace::Reason;
pub use trace::ReasonClass;
pub use trace::Range;
pub use trace::TraceTag;
pub use trace::spec_param_append;
pub use trace::spec_span;
pub use trace::spec_spans;
pub use adapter::Adapter;
pub use adapter::AdapterCtx;
pub use adapter::AdapterId;
pub use adapter::AdapterOut;
pub use adapter::CapabilityManifest;
pub use adapter::DetectorId;
pub use adapter::Modality;
pub use adapter::clone_hash8;
pub use adapter::eq_hash8;
pub use config::AdapterCfgOverride;
pub use config::Caps;
pub use config::EngineCfg;
pub use config::Features;
pub use config::InspectPolicy;
pub use config::SenseCfg;
pub use determinism::BudgetClass;
pub use determinism::Determinism;
pub use determinism::EmbeddingsShape;
pub use determinism::RandSeed;
pub use sidecar::AudioSidecar;
pub use sidecar::BackendInfo;
pub use sidecar::BinarySidecar;
pub use sidecar::DType;
pub use sidecar::Layout;
pub use sidecar::Sidecar;
pub use sidecar::TextSidecar;
pub use sidecar::VisionSidecar;
pub use validators::spec_emb_len_message;
pub use validators::validate_adapter_out;
pub use sniff::ascii_printable_ppm;
pub use sniff::has_bom_utf8;
pub use sniff::has_bom_utf16be;
pub use sniff::has_bom_utf16le;
pub use sniff::head;
pub use sniff::is_bmp;
pub use sniff::is_gif;
pub use sniff::is_jpeg;
pub use sniff::is_mp3;
pub use sniff::is_pdf;
pub use sniff::is_png;
pub use sniff::is_utf8;
pub use sniff::is_wav;
pub use sniff::is_webp;
pub use sniff::is_zip;
pub use sniff::slice_starts_with;
pub use sniff::spec_bom_utf8;
pub use sniff::spec_bom_utf16be;
pub use sniff::spec_bom_utf16le;
pub use sniff::spec_is_bmp;
pub use sniff::spec_is_gif;
pub use sniff::spec_is_jpeg;
pub use sniff::spec_is_mp3;
pub use sniff::spec_is_pdf;
pub use sniff::spec_is_png;
pub use sniff::spec_is_printable;
pub use sniff::spec_is_wav;
pub use sniff::spec_is_webp;
pub use sniff::spec_is_zip;
pub use sniff::spec_printable_count;
pub use sniff::spec_printable_ppm;
pub use sniff::spec_starts_with;
pub use hint::HintParse;
pub use hint::parse_hint_mime;
pub use hint::spec_hint_kvs;
pub use hint::spec_index_of;
pub use hint::spec_is_space;
pub use hint::spec_kvs_of;
pub use hint::spec_mime_of;
pub use hint::spec_split_semi;
pub use hint::spec_trim;
pub use hint::str_chars_vec;
pub use detector::DetectOut;
pub use detector::Detection;
pub use detector::Detector;
pub use detector::DetectorConfig;
pub use detector::Route;
pub use detector::spec_append_kvs;
pub use detector::spec_confidence_of;
pub use detector::spec_decision;
pub use detector::spec_detect_out;
pub use detector::spec_route_ok;
pub use detector::spec_tag_ok;
pub use detector::spec_hint_detection;
pub use detector::spec_modality_of;
pub use detector::spec_params_of;
pub use detector::spec_route_reason_of;
pub use detector::spec_sniff;
pub use detector::spec_starts_with_chars;
pub use detector::spec_tag_name_of;
pub use detector::spec_tag_status_of;
pub use engine::EmbeddingsView;
pub use engine::EmbeddingsViewOwned;
pub use engine::Engine;
pub use engine::SenseOut;
pub use engine::lemma_worst_of_bounds;
pub use engine::spec_adapters_wf;
pub use engine::spec_assembled;
pub use engine::spec_guard_class;
pub use engine::spec_guard_tag;
pub use engine::spec_worst_of;
pub use engine::worst_of;
pub use hint::str_eq;
pub use session::CloseReason;
pub use session::Flow;
pub use session::FlowId;
pub use session::FlowPolicy;
pub use session::Session;
pub use session::SessionId;
pub use session::SessionPhase;
pub use session::spec_flow_matches;
pub use session::spec_core_eq;
pub use session::spec_sid_valid;
pub use ffi::lemma_status_mirror_round_trip;
pub use ffi::sense_dtype_t;
pub use ffi::sense_embeddings_shape_t;
pub use ffi::sense_layout_t;
pub use ffi::sense_status_t;
