//! The byte frame: the system's sole input unit.
//!
//! A frame is an immutable envelope of raw bytes plus provenance: an optional
//! timestamp, a source identifier, optional format hints, and the full
//! 32-byte content digest computed at construction. The digest always
//! matches the payload; that invariant is [`ByteFrame::wf`].

use vstd::prelude::*;
use vstd::string::StringExecFns;

use crate::bytes::Bytes;
use crate::digest::blake3_of;
use crate::digest::content_hash32;
use crate::numfmt::bytes_to_hex;
use crate::numfmt::spec_hex;

verus! {

/// Monotonic and wall-clock timestamps in nanoseconds. `mono_ns` is reserved
/// for runtimes that track a monotonic epoch; the core never reads a clock
/// itself, so both parts are caller-provided.
#[derive(Clone, Copy, Debug, PartialEq, Eq, Structural)]
pub struct Timestamp {
    /// Nanoseconds on the caller's monotonic clock, or zero.
    pub mono_ns: u128,
    /// Nanoseconds since the UNIX epoch on the caller's wall clock, or zero.
    pub wall_ns: u128,
}

impl Timestamp {
    /// Constructs a timestamp explicitly from its parts.
    pub fn from_parts(mono_ns: u128, wall_ns: u128) -> (r: Timestamp)
        ensures
            r.mono_ns == mono_ns,
            r.wall_ns == wall_ns,
    {
        Timestamp { mono_ns, wall_ns }
    }
}

/// Caller-provided hints that can steer routing; all optional.
#[derive(Clone, Debug, Default)]
pub struct Hints {
    /// File extension, without the dot.
    pub ext: Option<String>,
    /// MIME-style format hint, e.g. `vision/png` or `text/plain; charset=utf-8`.
    pub mime: Option<String>,
    /// Audio sample rate in hertz.
    pub sr: Option<u32>,
    /// Audio channel count.
    pub channels: Option<u8>,
    /// Image width in pixels.
    pub width: Option<u32>,
    /// Image height in pixels.
    pub height: Option<u32>,
    /// Media duration in milliseconds.
    pub duration_ms: Option<u32>,
}

impl Hints {
    /// Hints carrying only a MIME-style format hint.
    pub fn mime_only(mime: &str) -> (r: Hints)
        ensures
            r.mime matches Some(m) && m@ == mime@,
            r.ext is None,
            r.sr is None,
            r.channels is None,
            r.width is None,
            r.height is None,
            r.duration_ms is None,
    {
        Hints {
            ext: None,
            mime: Some(String::from_str(mime)),
            sr: None,
            channels: None,
            width: None,
            height: None,
            duration_ms: None,
        }
    }
}

/// Uniform envelope for raw input bytes plus provenance. Owns or borrows its
/// data; performs no I/O; immutable after construction.
#[derive(Clone, Debug)]
pub struct ByteFrame<'a> {
    /// Opaque input bytes.
    pub data: Bytes<'a>,
    /// Optional timestamp, so replay and tests can fix or omit time.
    pub ts: Option<Timestamp>,
    /// Provenance tag (e.g. a path, URL or device name).
    pub source_id: String,
    /// Optional routing hints.
    pub hints: Option<Hints>,
    /// Full 32-byte content digest of `data`, computed at construction.
    pub content_hash: [u8; 32],
}

impl<'a> ByteFrame<'a> {
    /// The frame's invariant: the stored digest matches the payload.
    pub open spec fn wf(&self) -> bool {
        self.content_hash@ == blake3_of(self.data@)
    }

    /// The MIME-style format hint carried by the frame, if any.
    pub open spec fn spec_hint_mime(&self) -> Option<Seq<char>> {
        match self.hints {
            Some(h) => match h.mime {
                Some(m) => Some(m@),
                None => None,
            },
            None => None,
        }
    }

    /// Exec mirror of [`ByteFrame::spec_hint_mime`].
    pub fn hint_mime(&self) -> (r: Option<&str>)
        ensures
            match r {
                Some(m) => self.spec_hint_mime() matches Some(s) && s == m@,
                None => self.spec_hint_mime() is None,
            },
    {
        match &self.hints {
            Some(h) => match &h.mime {
                Some(m) => Some(m.as_str()),
                None => None,
            },
            None => None,
        }
    }

    /// Constructs a frame, computing the content digest of the payload.
    pub fn from_bytes(data: Bytes<'a>, ts: Option<Timestamp>, source_id: &str) -> (r: ByteFrame<
        'a,
    >)
        ensures
            r.wf(),
            r.data@ == data@,
            r.ts == ts,
            r.source_id@ == source_id@,
            r.hints is None,
    {
        let content_hash = content_hash32(data.as_slice());
        ByteFrame { data, ts, source_id: String::from_str(source_id), hints: None, content_hash }
    }

    /// Borrows a caller-owned buffer without copying.
    pub fn from_borrowed(data: &'a [u8], source_id: &str, hints: Option<Hints>) -> (r: ByteFrame<
        'a,
    >)
        ensures
            r.wf(),
            r.data@ == data@,
            r.ts is None,
            r.source_id@ == source_id@,
            r.hints == hints,
    {
        let mut r = ByteFrame::from_bytes(Bytes::Borrowed(data), None, source_id);
        r.hints = hints;
        r
    }

    /// Owns the bytes without further copying.
    pub fn from_owned(data: Vec<u8>, source_id: &str, hints: Option<Hints>) -> (r: ByteFrame<'a>)
        ensures
            r.wf(),
            r.data@ == data@,
            r.ts is None,
            r.source_id@ == source_id@,
            r.hints == hints,
    {
        let owned = Bytes::Owned(std::sync::Arc::new(data));
        let mut r = ByteFrame::from_bytes(owned, None, source_id);
        r.hints = hints;
        r
    }

    /// Sets an explicit timestamp.
    pub fn with_timestamp(self, ts: Timestamp) -> (r: ByteFrame<'a>)
        ensures
            r.ts matches Some(t) && t == ts,
            r.data@ == self.data@,
            r.source_id == self.source_id,
            r.hints == self.hints,
            r.content_hash == self.content_hash,
            self.wf() ==> r.wf(),
    {
        ByteFrame { ts: Some(ts), ..self }
    }

    /// Attaches or overrides the MIME-style format hint.
    pub fn with_mime(self, mime: &str) -> (r: ByteFrame<'a>)
        ensures
            r.spec_hint_mime() matches Some(m) && m == mime@,
            r.data@ == self.data@,
            r.ts == self.ts,
            r.source_id == self.source_id,
            r.content_hash == self.content_hash,
            self.wf() ==> r.wf(),
    {
        let hints = match self.hints {
            Some(mut h) => {
                h.mime = Some(String::from_str(mime));
                Some(h)
            },
            None => Some(Hints::mime_only(mime)),
        };
        ByteFrame { hints, ..self }
    }

    /// Enforces a maximum frame size: `None` when the payload is over the
    /// limit, the unchanged frame otherwise.
    pub fn guard_max_size(self, max_bytes: usize) -> (r: Option<ByteFrame<'a>>)
        ensures
            self.data@.len() <= max_bytes ==> (r matches Some(f) && f == self),
            self.data@.len() > max_bytes ==> r is None,
    {
        if self.data.len() <= max_bytes {
            Some(self)
        } else {
            None
        }
    }

    /// Byte length of the payload.
    pub fn len(&self) -> (n: usize)
        ensures
            n == self.data@.len(),
    {
        self.data.len()
    }

    /// True when the payload is empty.
    pub fn is_empty(&self) -> (r: bool)
        ensures
            r == (self.data@.len() == 0),
    {
        self.data.is_empty()
    }

    /// Stable short identifier for logs: the first 8 digest bytes in hex.
    pub fn short_id(&self) -> (r: String)
        ensures
            r@ == spec_hex(self.content_hash@.take(8)),
    {
        let head: [u8; 8] = [
            self.content_hash[0],
            self.content_hash[1],
            self.content_hash[2],
            self.content_hash[3],
            self.content_hash[4],
            self.content_hash[5],
            self.content_hash[6],
            self.content_hash[7],
        ];
        proof {
            assert(head@ =~= self.content_hash@.take(8));
        }
        bytes_to_hex(head.as_slice())
    }

    /// Full 64-character hex rendering of the content digest.
    pub fn hash_hex(&self) -> (r: String)
        ensures
            r@ == spec_hex(self.content_hash@),
    {
        bytes_to_hex(self.content_hash.as_slice())
    }

    /// Recomputes the content digest from the stored payload. For a
    /// well-formed frame this always reproduces the stored digest: the digest
    /// is a pure function of the bytes.
    pub fn recompute_hash(&self) -> (r: [u8; 32])
        ensures
            r@ == blake3_of(self.data@),
            self.wf() ==> r@ == self.content_hash@,
    {
        content_hash32(self.data.as_slice())
    }
}

impl<'a> Default for ByteFrame<'a> {
    /// The empty frame: no payload, no provenance, and the digest of the
    /// empty byte string, so the invariant holds from the start.
    fn default() -> (r: ByteFrame<'a>)
        ensures
            r.wf(),
            r.data@.len() == 0,
            r.ts is None,
            r.source_id@.len() == 0,
            r.hints is None,
    {
        proof {
            reveal_strlit("");
        }
        ByteFrame::from_bytes(Bytes::Owned(std::sync::Arc::new(Vec::new())), None, "")
    }
}

/// Round-trip law: a frame built by any constructor stores the digest of its
/// payload, so recomputing the digest from the stored payload reproduces the
/// stored value exactly.
pub proof fn lemma_frame_hash_round_trip(frame: ByteFrame<'_>)
    requires
        frame.wf(),
    ensures
        frame.content_hash@ == blake3_of(frame.data@),
{
}

} // verus!
