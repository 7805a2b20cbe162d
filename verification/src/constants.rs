//! Default caps and modality constants.

use vstd::prelude::*;

verus! {

/// Default maximum frame size, in mebibytes.
pub const DEFAULT_MAX_FRAME_MB: u32 = 16;

/// Default session byte budget, in mebibytes.
pub const DEFAULT_SESSION_CAP_MB: u32 = 256;

/// Default per-item decode timeout, in milliseconds.
pub const DEFAULT_DECODE_TIMEOUT_MS: u32 = 5000;

/// Default embedding width of the text adapter.
pub const D_MODEL_TEXT: u16 = 512;

/// Default embedding width of the audio adapter.
pub const D_MODEL_AUDIO: u16 = 512;

/// Default embedding width of the vision adapter.
pub const D_MODEL_VISION: u16 = 768;

/// Default embedding width of the binary adapter.
pub const D_MODEL_BINARY: u16 = 512;

/// Default vision patch edge, in pixels.
pub const VISION_PATCH: u16 = 16;

/// Evidence schema version. Bumped only on breaking semantics.
pub const EVIDENCE_SCHEMA_VER: u16 = 1;

} // verus!
