use sense_core::ByteFrame;
use sense_core::Detector;
use sense_core::Modality;
use sense_core::Phase;
use sense_core::ReasonClass;
use sense_core::Status;

fn bf(bytes: &[u8]) -> ByteFrame<'static> {
    ByteFrame::from_owned(bytes.to_vec(), "mem", None)
}

const PNG: &[u8] = &[0x89, b'P', b'N', b'G', b'\r', b'\n', 0x1A, b'\n'];
const PDF: &[u8] = b"%PDF-";

#[test]
fn png_detects_vision() {
    let d = Detector::default().detect(&bf(PNG));
    assert!(matches!(d.route.modality, Modality::Vision));
    assert!(d.tag.params.contains("png"));
}

#[test]
fn utf8_detects_text() {
    let d = Detector::default().detect(&bf(b"hello world"));
    assert!(matches!(d.route.modality, Modality::Text));
    assert!(d.tag.params.contains("utf8"));
}

#[test]
fn pdf_routes_binary_container() {
    let d = Detector::default().detect(&bf(PDF));
    assert!(matches!(d.route.modality, Modality::Binary));
    assert_eq!(d.tag.name, "container");
    assert!(d.tag.params.contains("fmt=pdf"));
}

#[test]
fn ascii_heuristic_can_route_text() {
    // Plain ASCII is valid UTF-8, so the validity test fires before the
    // printable-ratio heuristic ever runs.
    let bytes = b"NAME: Steve\nScore: 9000\n";
    let d = Detector::default().detect(&bf(bytes));
    assert!(matches!(d.route.modality, Modality::Text));
    assert!(d.tag.params.contains("utf8"));
}

#[test]
fn heuristic_fires_on_printable_non_utf8() {
    // One stray 0xFF byte breaks UTF-8 validity while the printable ratio
    // stays above the threshold.
    let mut bytes = b"NAME: Steve\nScore: 9000\n".to_vec();
    bytes.push(0xFF);
    let d = Detector::default().detect(&bf(&bytes));
    assert!(matches!(d.route.modality, Modality::Text));
    assert!(d.tag.params.contains("heuristic-ascii"));
    assert!(matches!(d.tag.status, Status::Warn));
}

#[test]
fn png_literal_scenario() {
    let d = Detector::default().detect(&bf(&[0x89, 0x50, 0x4E, 0x47, 0x0D, 0x0A, 0x1A, 0x0A]));
    assert!(matches!(d.route.modality, Modality::Vision));
    assert!(d.tag.params.contains("fmt=png"));
    assert_eq!(d.route.confidence_ppm, 950_000);
}

#[test]
fn hello_world_literal_scenario() {
    let d = Detector::default().detect(&bf(b"hello world"));
    assert!(matches!(d.route.modality, Modality::Text));
    assert!(d.tag.params.contains("enc=utf8"));
    assert_eq!(d.route.confidence_ppm, 850_000);
}

#[test]
fn pdf_literal_scenario() {
    let d = Detector::default().detect(&bf(b"%PDF-1.7 ..."));
    assert!(matches!(d.route.modality, Modality::Binary));
    assert_eq!(d.tag.name, "container");
    assert!(d.tag.params.contains("fmt=pdf"));
    assert_eq!(d.route.confidence_ppm, 950_000);
}

#[test]
fn audio_wav_hint_overrides_payload() {
    // Hint-trust enabled by default: the payload bytes are arbitrary (a PNG
    // signature here) yet the hint decides.
    let frame = bf(PNG).with_mime("audio/wav");
    let d = Detector::default().detect(&frame);
    assert!(matches!(d.route.modality, Modality::Audio));
    assert_eq!(d.route.confidence_ppm, 990_000);
    assert!(d.tag.params.contains("hint=audio/wav"));
}

#[test]
fn noise_falls_back_to_binary_degraded_routing() {
    // Low-printable noise that is invalid UTF-8 and matches no signature.
    let bytes: Vec<u8> = vec![0x80, 0x00, 0xFE, 0x01, 0x80, 0x81, 0x82, 0x83, 0x00, 0x07];
    let d = Detector::default().detect(&bf(&bytes));
    assert!(matches!(d.route.modality, Modality::Binary));
    assert!(matches!(d.tag.status, Status::Degraded));
    let reason = d.tag.reason.expect("fallback carries a reason");
    assert!(matches!(reason.class, ReasonClass::Routing));
}

#[test]
fn empty_buffer_detects_without_error() {
    // The empty buffer is vacuously valid UTF-8.
    let d = Detector::default().detect(&bf(b""));
    assert!(d.route.confidence_ppm <= 1_000_000);
    assert!(matches!(d.route.modality, Modality::Text));
}

#[test]
fn detector_tag_is_detector_phase() {
    let d = Detector::default().detect(&bf(b"anything"));
    assert!(matches!(d.tag.phase, Phase::Detector));
}

#[test]
fn utf16_bom_warns_about_transcoding() {
    // The little-endian mark `FF FE` is shadowed by the MP3 frame-sync rule,
    // which runs earlier; the big-endian mark reaches the text branch.
    let d = Detector::default().detect(&bf(&[0xFE, 0xFF, 0x00, 0x41]));
    assert!(matches!(d.route.modality, Modality::Text));
    assert!(d.tag.params.contains("enc=utf16be"));
    assert!(matches!(d.tag.status, Status::Warn));
    let reason = d.tag.reason.expect("utf16 warning carries a reason");
    assert!(matches!(reason.class, ReasonClass::Format));
}

#[test]
fn utf8_bom_detects_without_warning() {
    let d = Detector::default().detect(&bf(&[0xEF, 0xBB, 0xBF, b'h', b'i']));
    assert!(matches!(d.route.modality, Modality::Text));
    assert!(d.tag.params.contains("enc=utf8-bom"));
    assert!(matches!(d.tag.status, Status::Okay));
}

#[test]
fn wav_riff_detects_audio() {
    let mut bytes = b"RIFF".to_vec();
    bytes.extend_from_slice(&[0x24, 0x00, 0x00, 0x00]);
    bytes.extend_from_slice(b"WAVE");
    let d = Detector::default().detect(&bf(&bytes));
    assert!(matches!(d.route.modality, Modality::Audio));
    assert!(d.tag.params.contains("fmt=wav"));
    assert_eq!(d.route.confidence_ppm, 950_000);
}

#[test]
fn webp_riff_detects_vision() {
    let mut bytes = b"RIFF".to_vec();
    bytes.extend_from_slice(&[0x24, 0x00, 0x00, 0x00]);
    bytes.extend_from_slice(b"WEBP");
    let d = Detector::default().detect(&bf(&bytes));
    assert!(matches!(d.route.modality, Modality::Vision));
    assert!(d.tag.params.contains("fmt=webp"));
}

#[test]
fn zip_detects_container() {
    let d = Detector::default().detect(&bf(&[0x50, 0x4B, 0x03, 0x04, 0x00]));
    assert!(matches!(d.route.modality, Modality::Binary));
    assert_eq!(d.tag.name, "container");
    assert!(d.tag.params.contains("fmt=zip"));
}

#[test]
fn mp3_id3_detects_audio() {
    let d = Detector::default().detect(&bf(b"ID3\x04\x00"));
    assert!(matches!(d.route.modality, Modality::Audio));
    assert!(d.tag.params.contains("fmt=mp3->pcm"));
    assert_eq!(d.route.confidence_ppm, 900_000);
}

#[test]
fn vision_raw_hint_adds_raw_format() {
    let frame = bf(b"arbitrary").with_mime("vision/raw; w=1280; h=720");
    let d = Detector::default().detect(&frame);
    assert!(matches!(d.route.modality, Modality::Vision));
    assert!(d.tag.params.contains("fmt=raw"));
    assert!(d.tag.params.contains("w=1280"));
    assert!(d.tag.params.contains("h=720"));
}

#[test]
fn unknown_hint_falls_through_to_payload() {
    let frame = bf(PNG).with_mime("application/json");
    let d = Detector::default().detect(&frame);
    assert!(matches!(d.route.modality, Modality::Vision));
    assert!(d.tag.params.contains("fmt=png"));
}

#[test]
fn hints_ignored_when_not_preferred() {
    let mut cfg = sense_core::DetectorConfig::default();
    cfg.prefer_hints = false;
    let frame = bf(PNG).with_mime("audio/wav");
    let d = Detector::new(cfg).detect(&frame);
    assert!(matches!(d.route.modality, Modality::Vision));
}

#[test]
fn clamped_caps_confidence() {
    let route = sense_core::Route {
        modality: Modality::Text,
        confidence_ppm: 2_000_000,
        reason: String::from("test"),
    };
    let clamped = route.clamped();
    assert_eq!(clamped.confidence_ppm, 1_000_000);
}

#[test]
fn parse_hint_splits_and_trims() {
    let parsed = sense_core::parse_hint_mime(" vision/raw ; fmt=rgba8 ;  w = 1280 ; flag");
    assert_eq!(parsed.mime, "vision/raw");
    assert_eq!(parsed.kvs.len(), 2);
    assert_eq!(parsed.kvs[0].0, "fmt");
    assert_eq!(parsed.kvs[0].1, "rgba8");
    assert_eq!(parsed.kvs[1].0, "w");
    assert_eq!(parsed.kvs[1].1, "1280");
}
