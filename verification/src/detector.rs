//! The detector: a pure classifier from byte frame to modality.
//!
//! Detection never fails: every input maps to some modality, with binary as
//! the fallback. The decision order, first match wins: trusted format hints;
//! image, audio and container signatures on a bounded prefix of the payload;
//! text encodings; a printable-ASCII heuristic; binary.

use vstd::prelude::*;
use vstd::string::StringExecFns;
use vstd::utf8::valid_utf8;

use crate::adapter::Modality;
use crate::frame::ByteFrame;
use crate::hint::HintParse;
use crate::hint::parse_hint_mime;
use crate::hint::spec_hint_kvs;
use crate::hint::spec_mime_of;
use crate::hint::str_chars_vec;
use crate::numfmt::ratio2_string;
use crate::numfmt::spec_ratio2;
use crate::sniff::ascii_printable_ppm;
use crate::sniff::has_bom_utf8;
use crate::sniff::has_bom_utf16be;
use crate::sniff::has_bom_utf16le;
use crate::sniff::head;
use crate::sniff::is_bmp;
use crate::sniff::is_gif;
use crate::sniff::is_jpeg;
use crate::sniff::is_mp3;
use crate::sniff::is_pdf;
use crate::sniff::is_png;
use crate::sniff::is_utf8;
use crate::sniff::is_wav;
use crate::sniff::is_webp;
use crate::sniff::is_zip;
use crate::sniff::spec_bom_utf8;
use crate::sniff::spec_bom_utf16be;
use crate::sniff::spec_bom_utf16le;
use crate::sniff::spec_is_bmp;
use crate::sniff::spec_is_gif;
use crate::sniff::spec_is_jpeg;
use crate::sniff::spec_is_mp3;
use crate::sniff::spec_is_pdf;
use crate::sniff::spec_is_png;
use crate::sniff::spec_is_wav;
use crate::sniff::spec_is_webp;
use crate::sniff::spec_is_zip;
use crate::sniff::spec_printable_ppm;
use crate::status::Status;
use crate::trace::Phase;
use crate::trace::Reason;
use crate::trace::ReasonClass;
use crate::trace::TraceTag;
use crate::trace::spec_param_append;

verus! {

/// Detector configuration.
#[derive(Debug, Clone, Copy, PartialEq, Eq, Structural)]
pub struct DetectorConfig {
    /// Maximum bytes sniffed from the head of the buffer.
    pub sniff_bytes: usize,
    /// Whether MIME hints are trusted and take priority over the payload.
    pub prefer_hints: bool,
    /// Whether the printable-ASCII heuristic runs when nothing else matches.
    pub text_heuristic: bool,
    /// Printable-ratio threshold for heuristic text, in parts per million.
    pub printable_threshold_ppm: u32,
}

impl Default for DetectorConfig {
    /// 4 KiB sniff window, hints trusted, heuristic enabled at a ratio of
    /// 850,000 ppm.
    fn default() -> (r: DetectorConfig)
        ensures
            r.sniff_bytes == 4096,
            r.prefer_hints,
            r.text_heuristic,
            r.printable_threshold_ppm == 850_000,
    {
        DetectorConfig {
            sniff_bytes: 4096,
            prefer_hints: true,
            text_heuristic: true,
            printable_threshold_ppm: 850_000,
        }
    }
}

/// The detector's routing decision: a modality, a confidence in parts per
/// million, and a short machine-stable reason.
#[derive(Debug, Clone)]
pub struct Route {
    /// Target modality for the frame.
    pub modality: Modality,
    /// Confidence in parts per million, within `[0, 1_000_000]`.
    pub confidence_ppm: u32,
    /// Short machine-stable explanation, e.g. `png` or `utf8`.
    pub reason: String,
}

impl Route {
    /// Clamps the confidence into `[0, 1_000_000]`.
    pub fn clamped(self) -> (r: Route)
        ensures
            r.confidence_ppm == if self.confidence_ppm > 1_000_000 {
                1_000_000u32
            } else {
                self.confidence_ppm
            },
            r.confidence_ppm <= 1_000_000,
            r.modality == self.modality,
            r.reason == self.reason,
    {
        if self.confidence_ppm > 1_000_000 {
            Route { confidence_ppm: 1_000_000, ..self }
        } else {
            self
        }
    }
}

/// Result of detection: the routing decision and the single trace tag the
/// detection phase emits.
#[derive(Debug, Clone)]
pub struct DetectOut {
    /// The routing decision.
    pub route: Route,
    /// The detector's trace tag, carrying the matched format, the confidence
    /// and, when a hint was present, the hint.
    pub tag: TraceTag,
}

/// Which rule of the decision order matched; the whole observable output of
/// detection is a function of this and the inputs.
#[derive(Debug, Clone, Copy, PartialEq, Eq, Structural)]
pub enum Detection {
    /// A trusted `vision/...` hint.
    HintVision,
    /// A trusted `audio/...` hint.
    HintAudio,
    /// A trusted `text/...` hint.
    HintText,
    /// A trusted container MIME hint (`application/pdf`, `application/zip`).
    HintContainer,
    /// The PNG signature.
    SigPng,
    /// The JPEG start-of-image marker.
    SigJpeg,
    /// A GIF signature.
    SigGif,
    /// A WebP RIFF form.
    SigWebp,
    /// The BMP signature.
    SigBmp,
    /// A WAVE RIFF form.
    SigWav,
    /// An MP3 stream (ID3 tag or frame sync).
    SigMp3,
    /// The PDF signature.
    SigPdf,
    /// The ZIP local-file-header signature.
    SigZip,
    /// The UTF-8 byte-order mark.
    BomUtf8,
    /// The little-endian UTF-16 byte-order mark.
    BomUtf16Le,
    /// The big-endian UTF-16 byte-order mark.
    BomUtf16Be,
    /// The prefix is valid UTF-8.
    Utf8Valid,
    /// The printable-ASCII heuristic fired.
    AsciiHeuristic,
    /// Nothing matched: binary fallback.
    Fallback,
}

/// The sniffed prefix: at most `sniff_bytes` from the head of the payload.
pub open spec fn spec_sniff(cfg: DetectorConfig, data: Seq<u8>) -> Seq<u8> {
    data.take(
        if cfg.sniff_bytes <= data.len() {
            cfg.sniff_bytes as int
        } else {
            data.len() as int
        },
    )
}

/// True when `s` begins with `p`.
pub open spec fn spec_starts_with_chars(s: Seq<char>, p: Seq<char>) -> bool {
    s.len() >= p.len() && s.take(p.len() as int) == p
}

/// The rule a trusted hint with the given trimmed primary token selects, if
/// any; an unrecognised token falls through to payload sniffing.
pub open spec fn spec_hint_detection(mime: Seq<char>) -> Option<Detection> {
    if spec_starts_with_chars(mime, "vision/"@) {
        Some(Detection::HintVision)
    } else if spec_starts_with_chars(mime, "audio/"@) {
        Some(Detection::HintAudio)
    } else if spec_starts_with_chars(mime, "text/"@) {
        Some(Detection::HintText)
    } else if mime == "application/pdf"@ || mime == "application/zip"@ {
        Some(Detection::HintContainer)
    } else {
        None
    }
}

/// The decision order, top to bottom, first match wins: trusted hints, image
/// signatures, audio signatures, containers, text encodings, the printable
/// heuristic, then the binary fallback.
pub open spec fn spec_decision(cfg: DetectorConfig, data: Seq<u8>, hint: Option<Seq<char>>) -> Detection {
    let sniff = spec_sniff(cfg, data);
    let hd = if cfg.prefer_hints {
        match hint {
            Some(h) => spec_hint_detection(spec_mime_of(h)),
            None => None,
        }
    } else {
        None
    };
    if hd is Some {
        hd->0
    } else if spec_is_png(sniff) {
        Detection::SigPng
    } else if spec_is_jpeg(sniff) {
        Detection::SigJpeg
    } else if spec_is_gif(sniff) {
        Detection::SigGif
    } else if spec_is_webp(sniff) {
        Detection::SigWebp
    } else if spec_is_bmp(sniff) {
        Detection::SigBmp
    } else if spec_is_wav(sniff) {
        Detection::SigWav
    } else if spec_is_mp3(sniff) {
        Detection::SigMp3
    } else if spec_is_pdf(sniff) {
        Detection::SigPdf
    } else if spec_is_zip(sniff) {
        Detection::SigZip
    } else if spec_bom_utf8(sniff) {
        Detection::BomUtf8
    } else if spec_bom_utf16le(sniff) {
        Detection::BomUtf16Le
    } else if spec_bom_utf16be(sniff) {
        Detection::BomUtf16Be
    } else if valid_utf8(sniff) {
        Detection::Utf8Valid
    } else if cfg.text_heuristic && spec_printable_ppm(sniff) >= cfg.printable_threshold_ppm {
        Detection::AsciiHeuristic
    } else {
        Detection::Fallback
    }
}

/// The modality each rule routes to.
pub open spec fn spec_modality_of(d: Detection) -> Modality {
    match d {
        Detection::HintVision => Modality::Vision,
        Detection::HintAudio => Modality::Audio,
        Detection::HintText => Modality::Text,
        Detection::HintContainer => Modality::Binary,
        Detection::SigPng => Modality::Vision,
        Detection::SigJpeg => Modality::Vision,
        Detection::SigGif => Modality::Vision,
        Detection::SigWebp => Modality::Vision,
        Detection::SigBmp => Modality::Vision,
        Detection::SigWav => Modality::Audio,
        Detection::SigMp3 => Modality::Audio,
        Detection::SigPdf => Modality::Binary,
        Detection::SigZip => Modality::Binary,
        Detection::BomUtf8 => Modality::Text,
        Detection::BomUtf16Le => Modality::Text,
        Detection::BomUtf16Be => Modality::Text,
        Detection::Utf8Valid => Modality::Text,
        Detection::AsciiHeuristic => Modality::Text,
        Detection::Fallback => Modality::Binary,
    }
}

/// The fixed confidence of each rule, in parts per million.
pub open spec fn spec_confidence_of(d: Detection) -> u32 {
    match d {
        Detection::HintVision => 990_000,
        Detection::HintAudio => 990_000,
        Detection::HintText => 990_000,
        Detection::HintContainer => 990_000,
        Detection::SigPng => 950_000,
        Detection::SigJpeg => 950_000,
        Detection::SigGif => 950_000,
        Detection::SigWebp => 950_000,
        Detection::SigBmp => 900_000,
        Detection::SigWav => 950_000,
        Detection::SigMp3 => 900_000,
        Detection::SigPdf => 950_000,
        Detection::SigZip => 950_000,
        Detection::BomUtf8 => 900_000,
        Detection::BomUtf16Le => 900_000,
        Detection::BomUtf16Be => 900_000,
        Detection::Utf8Valid => 850_000,
        Detection::AsciiHeuristic => 600_000,
        Detection::Fallback => 500_000,
    }
}

/// The trace tag name of each rule.
pub open spec fn spec_tag_name_of(d: Detection) -> Seq<char> {
    match d {
        Detection::HintVision => "vision"@,
        Detection::HintAudio => "audio"@,
        Detection::HintText => "text"@,
        Detection::HintContainer => "container"@,
        Detection::SigPng => "vision"@,
        Detection::SigJpeg => "vision"@,
        Detection::SigGif => "vision"@,
        Detection::SigWebp => "vision"@,
        Detection::SigBmp => "vision"@,
        Detection::SigWav => "audio"@,
        Detection::SigMp3 => "audio"@,
        Detection::SigPdf => "container"@,
        Detection::SigZip => "container"@,
        Detection::BomUtf8 => "text"@,
        Detection::BomUtf16Le => "text"@,
        Detection::BomUtf16Be => "text"@,
        Detection::Utf8Valid => "text"@,
        Detection::AsciiHeuristic => "text"@,
        Detection::Fallback => "binary"@,
    }
}

/// The machine-stable route reason of each rule.
pub open spec fn spec_route_reason_of(d: Detection) -> Seq<char> {
    match d {
        Detection::HintVision => "hint"@,
        Detection::HintAudio => "hint"@,
        Detection::HintText => "hint"@,
        Detection::HintContainer => "hint"@,
        Detection::SigPng => "png"@,
        Detection::SigJpeg => "jpeg"@,
        Detection::SigGif => "gif"@,
        Detection::SigWebp => "webp"@,
        Detection::SigBmp => "bmp"@,
        Detection::SigWav => "wav"@,
        Detection::SigMp3 => "mp3->pcm"@,
        Detection::SigPdf => "pdf"@,
        Detection::SigZip => "zip"@,
        Detection::BomUtf8 => "utf8-bom"@,
        Detection::BomUtf16Le => "utf16le"@,
        Detection::BomUtf16Be => "utf16be"@,
        Detection::Utf8Valid => "utf8"@,
        Detection::AsciiHeuristic => "heuristic-ascii"@,
        Detection::Fallback => "no signature match"@,
    }
}

/// The status of the detector's tag: a warning for UTF-16 (transcoding will
/// be needed) and for the unvalidated heuristic; degraded for the fallback;
/// nominal otherwise.
pub open spec fn spec_tag_status_of(d: Detection) -> Status {
    match d {
        Detection::BomUtf16Le => Status::Warn,
        Detection::BomUtf16Be => Status::Warn,
        Detection::AsciiHeuristic => Status::Warn,
        Detection::Fallback => Status::Degraded,
        _ => Status::Okay,
    }
}

/// The reason class attached when the tag is not nominal.
pub open spec fn spec_reason_class_of(d: Detection) -> Option<ReasonClass> {
    match d {
        Detection::BomUtf16Le => Some(ReasonClass::Format),
        Detection::BomUtf16Be => Some(ReasonClass::Format),
        Detection::AsciiHeuristic => Some(ReasonClass::Format),
        Detection::Fallback => Some(ReasonClass::Routing),
        _ => None,
    }
}

/// The reason message attached when the tag is not nominal.
pub open spec fn spec_reason_message_of(d: Detection) -> Seq<char> {
    match d {
        Detection::BomUtf16Le => "utf16 BOM; will transcode"@,
        Detection::BomUtf16Be => "utf16 BOM; will transcode"@,
        Detection::AsciiHeuristic => "heuristic text w/out UTF validation"@,
        Detection::Fallback => "no signature match; fallback"@,
        _ => Seq::empty(),
    }
}

/// Folds `key=value` pairs onto a parameter string, left to right.
pub open spec fn spec_append_kvs(p: Seq<char>, kvs: Seq<(Seq<char>, Seq<char>)>) -> Seq<char>
    decreases kvs.len(),
{
    if kvs.len() == 0 {
        p
    } else {
        spec_append_kvs(spec_param_append(p, kvs[0].0, kvs[0].1), kvs.drop_first())
    }
}

/// One left-fold step of [`spec_append_kvs`].
proof fn lemma_append_kvs_snoc(p: Seq<char>, kvs: Seq<(Seq<char>, Seq<char>)>, k: int)
    requires
        0 <= k < kvs.len(),
    ensures
        spec_append_kvs(p, kvs.take(k + 1)) == spec_param_append(
            spec_append_kvs(p, kvs.take(k)),
            kvs[k].0,
            kvs[k].1,
        ),
    decreases k,
{
    let q = spec_param_append(p, kvs[0].0, kvs[0].1);
    if k == 0 {
        assert(kvs.take(1) =~= seq![kvs[0]]);
        assert(kvs.take(0) =~= Seq::<(Seq<char>, Seq<char>)>::empty());
        assert(seq![kvs[0]].drop_first() =~= Seq::<(Seq<char>, Seq<char>)>::empty());
        assert(spec_append_kvs(p, kvs.take(1)) == spec_append_kvs(
            q,
            Seq::<(Seq<char>, Seq<char>)>::empty(),
        ));
        assert(spec_append_kvs(q, Seq::<(Seq<char>, Seq<char>)>::empty()) == q);
        assert(spec_append_kvs(p, kvs.take(0)) == p);
    } else {
        let t = kvs.drop_first();
        assert(kvs.take(k + 1)[0] == kvs[0]);
        assert(kvs.take(k)[0] == kvs[0]);
        assert(kvs.take(k + 1).drop_first() =~= t.take(k));
        assert(kvs.take(k).drop_first() =~= t.take(k - 1));
        assert(spec_append_kvs(p, kvs.take(k + 1)) == spec_append_kvs(q, t.take(k)));
        assert(spec_append_kvs(p, kvs.take(k)) == spec_append_kvs(q, t.take(k - 1)));
        lemma_append_kvs_snoc(q, t, k - 1);
        assert(t[k - 1] == kvs[k]);
    }
}

/// The exact parameter string of the detector's tag for each rule.
pub open spec fn spec_params_of(
    cfg: DetectorConfig,
    data: Seq<u8>,
    hint: Option<Seq<char>>,
    d: Detection,
) -> Seq<char> {
    let sniff = spec_sniff(cfg, data);
    let e = Seq::<char>::empty();
    match d {
        Detection::HintVision => {
            let h = hint->0;
            let mime = spec_mime_of(h);
            let kvs = spec_hint_kvs(h);
            let base = spec_append_kvs(spec_param_append(e, "hint"@, mime), kvs);
            let with_fmt = if mime == "vision/raw"@ {
                spec_param_append(base, "fmt"@, "raw"@)
            } else {
                base
            };
            spec_param_append(with_fmt, "conf"@, "0.99"@)
        },
        Detection::HintAudio => spec_hint_params(hint->0),
        Detection::HintText => spec_hint_params(hint->0),
        Detection::HintContainer => spec_hint_params(hint->0),
        Detection::SigPng => spec_sig_params("png"@, "0.95"@, hint),
        Detection::SigJpeg => spec_sig_params("jpeg"@, "0.95"@, hint),
        Detection::SigGif => spec_sig_params("gif"@, "0.95"@, hint),
        Detection::SigWebp => spec_sig_params("webp"@, "0.95"@, hint),
        Detection::SigBmp => spec_sig_params("bmp"@, "0.90"@, hint),
        Detection::SigWav => spec_sig_params("wav"@, "0.95"@, hint),
        Detection::SigMp3 => spec_sig_params("mp3->pcm"@, "0.90"@, hint),
        Detection::SigPdf => spec_container_params("pdf"@),
        Detection::SigZip => spec_container_params("zip"@),
        Detection::BomUtf8 => spec_enc_params("utf8-bom"@, "0.90"@),
        Detection::BomUtf16Le => spec_enc_params("utf16le"@, "0.90"@),
        Detection::BomUtf16Be => spec_enc_params("utf16be"@, "0.90"@),
        Detection::Utf8Valid => spec_enc_params("utf8"@, "0.85"@),
        Detection::AsciiHeuristic => spec_param_append(
            spec_param_append(
                spec_param_append(e, "enc"@, "heuristic-ascii"@),
                "printable"@,
                spec_ratio2(spec_printable_ppm(sniff) as u32),
            ),
            "conf"@,
            "0.60"@,
        ),
        Detection::Fallback => spec_param_append(e, "conf"@, "0.50"@),
    }
}

/// Parameters of the audio, text and container hint branches: the hint, the
/// confidence, then the qualifiers.
pub open spec fn spec_hint_params(h: Seq<char>) -> Seq<char> {
    spec_append_kvs(
        spec_param_append(
            spec_param_append(Seq::empty(), "hint"@, spec_mime_of(h)),
            "conf"@,
            "0.99"@,
        ),
        spec_hint_kvs(h),
    )
}

/// Parameters of a signature hit: the format, the confidence, and the raw
/// hint string when one was present.
pub open spec fn spec_sig_params(fmt: Seq<char>, conf: Seq<char>, hint: Option<Seq<char>>) -> Seq<
    char,
> {
    let base = spec_param_append(
        spec_param_append(Seq::empty(), "fmt"@, fmt),
        "conf"@,
        conf,
    );
    match hint {
        Some(h) => spec_param_append(base, "hint"@, h),
        None => base,
    }
}

/// Parameters of a sniffed container: the format and the confidence.
pub open spec fn spec_container_params(fmt: Seq<char>) -> Seq<char> {
    spec_param_append(spec_param_append(Seq::empty(), "fmt"@, fmt), "conf"@, "0.95"@)
}

/// Parameters of a text-encoding detection: the encoding and the confidence.
pub open spec fn spec_enc_params(enc: Seq<char>, conf: Seq<char>) -> Seq<char> {
    spec_param_append(spec_param_append(Seq::empty(), "enc"@, enc), "conf"@, conf)
}

/// What the routing decision must look like for a given decision.
pub open spec fn spec_route_ok(
    cfg: DetectorConfig,
    data: Seq<u8>,
    hint: Option<Seq<char>>,
    route: Route,
) -> bool {
    let d = spec_decision(cfg, data, hint);
    &&& route.modality == spec_modality_of(d)
    &&& route.confidence_ppm == spec_confidence_of(d)
    &&& route.confidence_ppm <= 1_000_000
    &&& route.reason@ == spec_route_reason_of(d)
}

/// What the detector's single trace tag must look like for a given decision.
pub open spec fn spec_tag_ok(
    cfg: DetectorConfig,
    data: Seq<u8>,
    hint: Option<Seq<char>>,
    tag: TraceTag,
) -> bool {
    let d = spec_decision(cfg, data, hint);
    &&& tag.phase == Phase::Detector
    &&& tag.name@ == spec_tag_name_of(d)
    &&& tag.params@ == spec_params_of(cfg, data, hint, d)
    &&& tag.status == spec_tag_status_of(d)
    &&& (match spec_reason_class_of(d) {
        Some(c) => tag.reason matches Some(reason) && reason.class == c && reason.message@
            == spec_reason_message_of(d),
        None => tag.reason is None,
    })
    &&& tag.spans@ == Seq::<crate::trace::Range>::empty()
}

/// What a whole detection result must look like for a given decision.
pub open spec fn spec_detect_out(
    cfg: DetectorConfig,
    data: Seq<u8>,
    hint: Option<Seq<char>>,
    r: DetectOut,
) -> bool {
    &&& spec_route_ok(cfg, data, hint, r.route)
    &&& spec_tag_ok(cfg, data, hint, r.tag)
}

/// Compares a character vector against a string slice for a prefix match.
fn chars_start_with(cs: &Vec<char>, p: &Vec<char>) -> (r: bool)
    ensures
        r == spec_starts_with_chars(cs@, p@),
{
    let n = p.len();
    if cs.len() < n {
        return false;
    }
    let mut i: usize = 0;
    while i < n
        invariant
            n == p@.len(),
            cs@.len() >= n,
            i <= n,
            forall|k: int| 0 <= k < i ==> cs@[k] == p@[k],
        decreases n - i,
    {
        if cs[i] != p[i] {
            assert(cs@.take(n as int)[i as int] != p@[i as int]);
            return false;
        }
        i = i + 1;
    }
    proof {
        assert(cs@.take(n as int) =~= p@);
    }
    true
}

/// Compares a character vector against a string slice for equality.
fn chars_eq(cs: &Vec<char>, p: &Vec<char>) -> (r: bool)
    ensures
        r == (cs@ == p@),
{
    if cs.len() != p.len() {
        return false;
    }
    let r = chars_start_with(cs, p);
    proof {
        assert(cs@.take(p@.len() as int) =~= cs@);
    }
    r
}

/// The pure detector over byte frames.
#[derive(Debug, Clone)]
pub struct Detector {
    /// The configuration the detector runs with.
    pub cfg: DetectorConfig,
}

impl Detector {
    /// A detector with the given configuration.
    pub fn new(cfg: DetectorConfig) -> (r: Detector)
        ensures
            r.cfg == cfg,
    {
        Detector { cfg }
    }
}

impl Default for Detector {
    /// A detector with the default configuration.
    fn default() -> (r: Detector)
        ensures
            r.cfg.sniff_bytes == 4096,
            r.cfg.prefer_hints,
            r.cfg.text_heuristic,
            r.cfg.printable_threshold_ppm == 850_000,
    {
        Detector::new(DetectorConfig::default())
    }
}

/// Builds the detection output for one decided rule; shared by the
/// signature, encoding and fallback branches.
fn plain_out(modality: Modality, conf_ppm: u32, reason_str: &str, params: TraceTag) -> (r:
    DetectOut)
    requires
        conf_ppm <= 1_000_000,
    ensures
        r.route.modality == modality,
        r.route.confidence_ppm == conf_ppm,
        r.route.reason@ == reason_str@,
        r.tag == params,
{
    DetectOut {
        route: Route {
            modality,
            confidence_ppm: conf_ppm,
            reason: String::from_str(reason_str),
        },
        tag: params,
    }
}

impl Detector {
    /// Classifies a frame. Never fails: every byte input, the empty buffer
    /// included, maps to a modality at a confidence within `[0, 1_000_000]`,
    /// and exactly one detector trace tag is emitted, as pinned by
    /// [`spec_detect_out`].
    pub fn detect<'a>(&self, bf: &ByteFrame<'a>) -> (r: DetectOut)
        ensures
            spec_detect_out(self.cfg, bf.data@, bf.spec_hint_mime(), r),
    {
        let data = bf.data.as_slice();
        let sniff = head(data, self.cfg.sniff_bytes);
        let ghost gsniff = spec_sniff(self.cfg, bf.data@);
        proof {
            assert(sniff@ == gsniff);
        }
        let ghost ghint = bf.spec_hint_mime();

        // 1) Hint-first, when enabled and a hint is present.
        if self.cfg.prefer_hints {
            match bf.hint_mime() {
                Some(h) => {
                    let out = self.detect_hinted(h, Ghost(bf.data@));
                    match out {
                        Some(r) => {
                            return r;
                        },
                        None => {},
                    }
                },
                None => {},
            }
        }
        proof {
            let hd = if self.cfg.prefer_hints {
                match ghint {
                    Some(hh) => spec_hint_detection(spec_mime_of(hh)),
                    None => None::<Detection>,
                }
            } else {
                None::<Detection>
            };
            assert(hd is None);
        }

        let hint_str = bf.hint_mime();

        // 2) Image signatures.
        if is_png(sniff) {
            return self.sig_out(Modality::Vision, "png", "0.95", 950_000, "vision", hint_str);
        }
        if is_jpeg(sniff) {
            return self.sig_out(Modality::Vision, "jpeg", "0.95", 950_000, "vision", hint_str);
        }
        if is_gif(sniff) {
            return self.sig_out(Modality::Vision, "gif", "0.95", 950_000, "vision", hint_str);
        }
        if is_webp(sniff) {
            return self.sig_out(Modality::Vision, "webp", "0.95", 950_000, "vision", hint_str);
        }
        if is_bmp(sniff) {
            return self.sig_out(Modality::Vision, "bmp", "0.90", 900_000, "vision", hint_str);
        }

        // 3) Audio signatures.
        if is_wav(sniff) {
            return self.sig_out(Modality::Audio, "wav", "0.95", 950_000, "audio", hint_str);
        }
        if is_mp3(sniff) {
            return self.sig_out(Modality::Audio, "mp3->pcm", "0.90", 900_000, "audio", hint_str);
        }

        // 4) Containers route to binary; no introspection.
        if is_pdf(sniff) {
            let tag = TraceTag::new(Phase::Detector, "container").param("fmt", "pdf").param(
                "conf",
                "0.95",
            );
            return plain_out(Modality::Binary, 950_000, "pdf", tag);
        }
        if is_zip(sniff) {
            let tag = TraceTag::new(Phase::Detector, "container").param("fmt", "zip").param(
                "conf",
                "0.95",
            );
            return plain_out(Modality::Binary, 950_000, "zip", tag);
        }

        // 5) Text encodings.
        if has_bom_utf8(sniff) {
            let tag = TraceTag::new(Phase::Detector, "text").param("enc", "utf8-bom").param(
                "conf",
                "0.90",
            );
            return plain_out(Modality::Text, 900_000, "utf8-bom", tag);
        }
        if has_bom_utf16le(sniff) {
            let tag = TraceTag::new(Phase::Detector, "text").param("enc", "utf16le").param(
                "conf",
                "0.90",
            ).warn(Some(Reason::format("utf16 BOM; will transcode")));
            return plain_out(Modality::Text, 900_000, "utf16le", tag);
        }
        if has_bom_utf16be(sniff) {
            let tag = TraceTag::new(Phase::Detector, "text").param("enc", "utf16be").param(
                "conf",
                "0.90",
            ).warn(Some(Reason::format("utf16 BOM; will transcode")));
            return plain_out(Modality::Text, 900_000, "utf16be", tag);
        }
        if is_utf8(sniff) {
            let tag = TraceTag::new(Phase::Detector, "text").param("enc", "utf8").param(
                "conf",
                "0.85",
            );
            return plain_out(Modality::Text, 850_000, "utf8", tag);
        }

        // 6) Printable-ASCII heuristic, without full validation.
        if self.cfg.text_heuristic {
            let ppm = ascii_printable_ppm(sniff);
            if ppm >= self.cfg.printable_threshold_ppm {
                let printable = ratio2_string(ppm);
                let tag = TraceTag::new(Phase::Detector, "text").param("enc", "heuristic-ascii")
                    .param("printable", printable.as_str()).param("conf", "0.60").warn(
                    Some(Reason::format("heuristic text w/out UTF validation")),
                );
                return plain_out(Modality::Text, 600_000, "heuristic-ascii", tag);
            }
        }

        // 7) Fallback: binary at low confidence.
        let tag = TraceTag::new(Phase::Detector, "binary").param("conf", "0.50").degraded(
            Some(Reason::routing("no signature match; fallback")),
        );
        plain_out(Modality::Binary, 500_000, "no signature match", tag)
    }

    /// One signature hit: format, confidence, and the raw hint if present.
    fn sig_out(
        &self,
        modality: Modality,
        fmt: &str,
        conf: &str,
        conf_ppm: u32,
        name: &str,
        hint: Option<&str>,
    ) -> (r: DetectOut)
        requires
            conf_ppm <= 1_000_000,
        ensures
            r.route.modality == modality,
            r.route.confidence_ppm == conf_ppm,
            r.route.reason@ == fmt@,
            r.tag.phase == Phase::Detector,
            r.tag.name@ == name@,
            r.tag.status == Status::Okay,
            r.tag.reason is None,
            r.tag.spans@ == Seq::<crate::trace::Range>::empty(),
            r.tag.params@ == spec_sig_params(
                fmt@,
                conf@,
                match hint {
                    Some(h) => Some(h@),
                    None => None,
                },
            ),
    {
        let mut tag = TraceTag::new(Phase::Detector, name).param("fmt", fmt).param("conf", conf);
        match hint {
            Some(h) => {
                tag = tag.param("hint", h);
            },
            None => {},
        }
        plain_out(modality, conf_ppm, fmt, tag)
    }

    /// The hint-first path: classifies by a trusted hint's primary token, or
    /// returns `None` to fall through to payload sniffing.
    fn detect_hinted(&self, h: &str, Ghost(data): Ghost<Seq<u8>>) -> (r: Option<DetectOut>)
        ensures
            match spec_hint_detection(spec_mime_of(h@)) {
                Some(d) => r matches Some(out) && out.route.modality == spec_modality_of(d)
                    && out.route.confidence_ppm == spec_confidence_of(d)
                    && out.route.reason@ == spec_route_reason_of(d) && out.tag.phase
                    == Phase::Detector && out.tag.name@ == spec_tag_name_of(d) && out.tag.status
                    == Status::Okay && out.tag.reason is None && out.tag.spans@
                    == Seq::<crate::trace::Range>::empty() && out.tag.params@ == spec_params_of(
                    self.cfg,
                    data,
                    Some(h@),
                    d,
                ),
                None => r is None,
            },
    {
        let parsed = parse_hint_mime(h);
        let mime_str = parsed.mime.as_str();
        let mcs = str_chars_vec(mime_str);
        let vision_p = str_chars_vec("vision/");
        let audio_p = str_chars_vec("audio/");
        let text_p = str_chars_vec("text/");
        let pdf_p = str_chars_vec("application/pdf");
        let zip_p = str_chars_vec("application/zip");
        let raw_p = str_chars_vec("vision/raw");
        if chars_start_with(&mcs, &vision_p) {
            let mut tag = TraceTag::new(Phase::Detector, "vision").param("hint", mime_str);
            tag = append_kv_params(tag, &parsed);
            if chars_eq(&mcs, &raw_p) {
                tag = tag.param("fmt", "raw");
            }
            tag = tag.param("conf", "0.99");
            return Some(plain_out(Modality::Vision, 990_000, "hint", tag));
        }
        if chars_start_with(&mcs, &audio_p) {
            let mut tag = TraceTag::new(Phase::Detector, "audio").param("hint", mime_str).param(
                "conf",
                "0.99",
            );
            tag = append_kv_params(tag, &parsed);
            return Some(plain_out(Modality::Audio, 990_000, "hint", tag));
        }
        if chars_start_with(&mcs, &text_p) {
            let mut tag = TraceTag::new(Phase::Detector, "text").param("hint", mime_str).param(
                "conf",
                "0.99",
            );
            tag = append_kv_params(tag, &parsed);
            return Some(plain_out(Modality::Text, 990_000, "hint", tag));
        }
        if chars_eq(&mcs, &pdf_p) || chars_eq(&mcs, &zip_p) {
            let mut tag = TraceTag::new(Phase::Detector, "container").param("hint", mime_str)
                .param("conf", "0.99");
            tag = append_kv_params(tag, &parsed);
            return Some(plain_out(Modality::Binary, 990_000, "hint", tag));
        }
        None
    }
}

/// Appends every parsed `key=value` qualifier to the tag's parameters.
fn append_kv_params(tag: TraceTag, parsed: &HintParse) -> (r: TraceTag)
    ensures
        r.params@ == spec_append_kvs(tag.params@, parsed.kvs.deep_view()),
        r.phase == tag.phase,
        r.name == tag.name,
        r.status == tag.status,
        r.reason == tag.reason,
        r.spans == tag.spans,
{
    let ghost kvs = parsed.kvs.deep_view();
    let ghost t0 = tag;
    let mut tag = tag;
    let ghost p0 = t0.params@;
    let n = parsed.kvs.len();
    let mut k: usize = 0;
    proof {
        assert(kvs.take(0) =~= Seq::<(Seq<char>, Seq<char>)>::empty());
    }
    while k < n
        invariant
            n == parsed.kvs@.len(),
            kvs == parsed.kvs.deep_view(),
            kvs.len() == n,
            k <= n,
            tag.params@ == spec_append_kvs(p0, kvs.take(k as int)),
            tag.phase == t0.phase,
            tag.name == t0.name,
            tag.status == t0.status,
            tag.reason == t0.reason,
            tag.spans == t0.spans,
        decreases n - k,
    {
        let pair = &parsed.kvs[k];
        tag = tag.param(pair.0.as_str(), pair.1.as_str());
        proof {
            assert(kvs[k as int].0 == parsed.kvs@[k as int].0@);
            assert(kvs[k as int].1 == parsed.kvs@[k as int].1@);
            lemma_append_kvs_snoc(p0, kvs, k as int);
        }
        k = k + 1;
    }
    proof {
        assert(kvs.take(n as int) =~= kvs);
    }
    tag
}

} // verus!
