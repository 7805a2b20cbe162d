//! Engine-time and per-call configuration.

use vstd::prelude::*;

use crate::adapter::Modality;
use crate::constants::DEFAULT_DECODE_TIMEOUT_MS;
use crate::constants::DEFAULT_MAX_FRAME_MB;
use crate::constants::DEFAULT_SESSION_CAP_MB;
use crate::determinism::BudgetClass;
use crate::determinism::Determinism;

verus! {

/// Size and time caps for frames and sessions.
#[derive(Clone, Copy, Debug, PartialEq, Eq, Structural)]
pub struct Caps {
    /// Maximum frame size in mebibytes.
    pub max_frame_mb: u32,
    /// Session byte budget in mebibytes.
    pub session_cap_mb: u32,
    /// Per-item decode timeout in milliseconds.
    pub decode_timeout_ms: u32,
}

impl Caps {
    /// Maximum frame size in bytes.
    pub open spec fn spec_max_frame_bytes(&self) -> int {
        self.max_frame_mb * 0x10_0000
    }

    /// Session byte budget in bytes.
    pub open spec fn spec_session_cap_bytes(&self) -> int {
        self.session_cap_mb * 0x10_0000
    }

    /// Maximum frame size in bytes, as `u64`.
    pub fn max_frame_bytes(&self) -> (r: u64)
        ensures
            r == self.spec_max_frame_bytes(),
    {
        (self.max_frame_mb as u64) * 0x10_0000
    }

    /// Session byte budget in bytes, as `u64`.
    pub fn session_cap_bytes(&self) -> (r: u64)
        ensures
            r == self.spec_session_cap_bytes(),
    {
        (self.session_cap_mb as u64) * 0x10_0000
    }
}

impl Default for Caps {
    /// The default caps: 16 MiB frames, 256 MiB sessions, 5 s decode timeout.
    fn default() -> (r: Caps)
        ensures
            r.max_frame_mb == DEFAULT_MAX_FRAME_MB,
            r.session_cap_mb == DEFAULT_SESSION_CAP_MB,
            r.decode_timeout_ms == DEFAULT_DECODE_TIMEOUT_MS,
    {
        Caps {
            max_frame_mb: DEFAULT_MAX_FRAME_MB,
            session_cap_mb: DEFAULT_SESSION_CAP_MB,
            decode_timeout_ms: DEFAULT_DECODE_TIMEOUT_MS,
        }
    }
}

/// The set of modality families enabled at engine construction. An explicit
/// set-valued field, checked when the engine is built — not a process-wide
/// flag.
#[derive(Clone, Copy, Debug, PartialEq, Eq, Structural)]
pub struct Features {
    /// The text adapter family is enabled.
    pub text: bool,
    /// The audio adapter family is enabled.
    pub audio: bool,
    /// The vision adapter family is enabled.
    pub vision: bool,
    /// The binary (fallback) adapter family is enabled.
    pub binary: bool,
}

impl Features {
    /// Whether the family serving the given modality is enabled. Container
    /// routes through the binary family.
    pub open spec fn spec_enabled(&self, m: Modality) -> bool {
        match m {
            Modality::Text => self.text,
            Modality::Audio => self.audio,
            Modality::Vision => self.vision,
            Modality::Binary => self.binary,
            Modality::Container => self.binary,
        }
    }

    /// Exec mirror of [`Features::spec_enabled`].
    #[verifier::when_used_as_spec(spec_enabled)]
    pub fn enabled(&self, m: Modality) -> (r: bool)
        ensures
            r == self.spec_enabled(m),
    {
        match m {
            Modality::Text => self.text,
            Modality::Audio => self.audio,
            Modality::Vision => self.vision,
            Modality::Binary => self.binary,
            Modality::Container => self.binary,
        }
    }

    /// All four families enabled.
    pub fn all() -> (r: Features)
        ensures
            r.text && r.audio && r.vision && r.binary,
    {
        Features { text: true, audio: true, vision: true, binary: true }
    }
}

/// Adapter knobs the caller may override per invocation.
#[derive(Clone, Copy, Debug, PartialEq, Eq, Structural)]
pub struct AdapterCfgOverride {
    /// Override of the text embedding width.
    pub text_d_model: Option<u16>,
    /// Override of the audio target sample rate.
    pub audio_sr: Option<u32>,
    /// Override of the vision patch edge.
    pub vision_patch: Option<u16>,
    /// Override of the binary stride.
    pub binary_stride: Option<u16>,
}

impl Default for AdapterCfgOverride {
    /// No overrides.
    fn default() -> (r: AdapterCfgOverride)
        ensures
            r.text_d_model is None,
            r.audio_sr is None,
            r.vision_patch is None,
            r.binary_stride is None,
    {
        AdapterCfgOverride { text_d_model: None, audio_sr: None, vision_patch: None, binary_stride: None }
    }
}

/// Controls which diagnostic artifacts the engine populates in its result.
#[derive(Clone, Copy, Debug, PartialEq, Eq, Structural)]
pub struct InspectPolicy {
    /// Populate the evidence handle.
    pub include_evidence: bool,
    /// Populate the sidecar metadata.
    pub include_sidecar: bool,
    /// Populate the human-only imprint strings.
    pub include_imprints: bool,
}

impl Default for InspectPolicy {
    /// The agent default: no diagnostic artifacts at all.
    fn default() -> (r: InspectPolicy)
        ensures
            !r.include_evidence,
            !r.include_sidecar,
            !r.include_imprints,
    {
        InspectPolicy { include_evidence: false, include_sidecar: false, include_imprints: false }
    }
}

/// Per-call configuration, immutable to adapters.
#[derive(Clone, Copy, Debug, PartialEq, Eq, Structural)]
pub struct SenseCfg {
    /// Visibility of diagnostic artifacts on the result.
    pub inspect: InspectPolicy,
    /// Optional per-modality knobs.
    pub adapter_overrides: AdapterCfgOverride,
}

impl Default for SenseCfg {
    /// Agent defaults: nothing inspected, nothing overridden.
    fn default() -> (r: SenseCfg)
        ensures
            !r.inspect.include_evidence,
            !r.inspect.include_sidecar,
            !r.inspect.include_imprints,
            r.adapter_overrides.text_d_model is None,
            r.adapter_overrides.audio_sr is None,
            r.adapter_overrides.vision_patch is None,
            r.adapter_overrides.binary_stride is None,
    {
        SenseCfg { inspect: InspectPolicy::default(), adapter_overrides: AdapterCfgOverride::default() }
    }
}

/// Engine-time configuration: determinism, budgets, caps and enabled
/// modality families.
#[derive(Clone, Copy, Debug, PartialEq, Eq, Structural)]
pub struct EngineCfg {
    /// Determinism grade applied within each flow.
    pub determinism: Determinism,
    /// Budget class for caps and latency targets.
    pub budgets: BudgetClass,
    /// Frame, session and timeout caps.
    pub caps: Caps,
    /// Enabled modality families.
    pub features: Features,
}

impl Default for EngineCfg {
    /// Evaluation defaults: grade D2, medium budgets, default caps, all
    /// families enabled.
    fn default() -> (r: EngineCfg)
        ensures
            r.determinism == Determinism::D2,
            r.budgets == BudgetClass::M,
            r.caps.max_frame_mb == DEFAULT_MAX_FRAME_MB,
            r.caps.session_cap_mb == DEFAULT_SESSION_CAP_MB,
            r.caps.decode_timeout_ms == DEFAULT_DECODE_TIMEOUT_MS,
            r.features.text && r.features.audio && r.features.vision && r.features.binary,
    {
        EngineCfg {
            determinism: Determinism::D2,
            budgets: BudgetClass::M,
            caps: Caps::default(),
            features: Features::all(),
        }
    }
}

} // verus!
