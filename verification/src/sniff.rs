//! Byte-level signature and encoding tests used by the detector.
//!
//! Everything here is a pure predicate on a bounded prefix of the payload:
//! magic-byte signatures, byte-order marks, UTF-8 validity and the printable
//! ASCII ratio heuristic.

use vstd::arithmetic::div_mod::lemma_div_is_ordered;
use vstd::arithmetic::div_mod::lemma_div_multiples_vanish;
use vstd::arithmetic::mul::lemma_mul_inequality;
use vstd::prelude::*;
use vstd::slice::slice_subrange;
use vstd::utf8::is_continuation_byte;
use vstd::utf8::is_leading_byte_width_1;
use vstd::utf8::is_leading_byte_width_2;
use vstd::utf8::is_leading_byte_width_3;
use vstd::utf8::is_leading_byte_width_4;
use vstd::utf8::decode_first_codepoint;
use vstd::utf8::length_of_first_codepoint;
use vstd::utf8::length_of_first_scalar;
use vstd::utf8::pop_first_scalar;
use vstd::utf8::valid_first_scalar;
use vstd::utf8::valid_leading_and_continuation_bytes_first_codepoint;
use vstd::utf8::valid_utf8;

verus! {

/// True when `d` begins with `p`.
pub open spec fn spec_starts_with(d: Seq<u8>, p: Seq<u8>) -> bool {
    d.len() >= p.len() && d.take(p.len() as int) == p
}

/// Exec mirror of [`spec_starts_with`].
pub fn slice_starts_with(d: &[u8], p: &[u8]) -> (r: bool)
    ensures
        r == spec_starts_with(d@, p@),
{
    let n = p.len();
    if d.len() < n {
        return false;
    }
    let mut i: usize = 0;
    while i < n
        invariant
            n == p@.len(),
            d@.len() >= n,
            i <= n,
            forall|k: int| 0 <= k < i ==> d@[k] == p@[k],
        decreases n - i,
    {
        if d[i] != p[i] {
            assert(d@.take(n as int)[i as int] != p@[i as int]);
            return false;
        }
        i = i + 1;
    }
    proof {
        assert(d@.take(n as int) =~= p@);
    }
    true
}

/// The PNG signature.
pub open spec fn spec_png_sig() -> Seq<u8> {
    seq![0x89u8, 0x50u8, 0x4Eu8, 0x47u8, 0x0Du8, 0x0Au8, 0x1Au8, 0x0Au8]
}

/// True when the bytes begin with the PNG signature.
pub open spec fn spec_is_png(d: Seq<u8>) -> bool {
    spec_starts_with(d, spec_png_sig())
}

/// Exec mirror of [`spec_is_png`].
pub fn is_png(d: &[u8]) -> (r: bool)
    ensures
        r == spec_is_png(d@),
{
    let sig: [u8; 8] = [0x89, 0x50, 0x4E, 0x47, 0x0D, 0x0A, 0x1A, 0x0A];
    proof {
        assert(sig@ =~= spec_png_sig());
    }
    slice_starts_with(d, sig.as_slice())
}

/// The JPEG start-of-image marker.
pub open spec fn spec_jpeg_sig() -> Seq<u8> {
    seq![0xFFu8, 0xD8u8, 0xFFu8]
}

/// True when the bytes begin with the JPEG start-of-image marker.
pub open spec fn spec_is_jpeg(d: Seq<u8>) -> bool {
    spec_starts_with(d, spec_jpeg_sig())
}

/// Exec mirror of [`spec_is_jpeg`].
pub fn is_jpeg(d: &[u8]) -> (r: bool)
    ensures
        r == spec_is_jpeg(d@),
{
    let sig: [u8; 3] = [0xFF, 0xD8, 0xFF];
    proof {
        assert(sig@ =~= spec_jpeg_sig());
    }
    slice_starts_with(d, sig.as_slice())
}

/// The GIF signatures, `GIF87a` and `GIF89a`.
pub open spec fn spec_gif87_sig() -> Seq<u8> {
    seq![0x47u8, 0x49u8, 0x46u8, 0x38u8, 0x37u8, 0x61u8]
}

/// The `GIF89a` signature.
pub open spec fn spec_gif89_sig() -> Seq<u8> {
    seq![0x47u8, 0x49u8, 0x46u8, 0x38u8, 0x39u8, 0x61u8]
}

/// True when the bytes begin with either GIF signature.
pub open spec fn spec_is_gif(d: Seq<u8>) -> bool {
    spec_starts_with(d, spec_gif87_sig()) || spec_starts_with(d, spec_gif89_sig())
}

/// Exec mirror of [`spec_is_gif`].
pub fn is_gif(d: &[u8]) -> (r: bool)
    ensures
        r == spec_is_gif(d@),
{
    let sig87: [u8; 6] = [0x47, 0x49, 0x46, 0x38, 0x37, 0x61];
    let sig89: [u8; 6] = [0x47, 0x49, 0x46, 0x38, 0x39, 0x61];
    proof {
        assert(sig87@ =~= spec_gif87_sig());
        assert(sig89@ =~= spec_gif89_sig());
    }
    slice_starts_with(d, sig87.as_slice()) || slice_starts_with(d, sig89.as_slice())
}

/// The RIFF chunk tag.
pub open spec fn spec_riff_sig() -> Seq<u8> {
    seq![0x52u8, 0x49u8, 0x46u8, 0x46u8]
}

/// The WEBP form tag within a RIFF container.
pub open spec fn spec_webp_tag() -> Seq<u8> {
    seq![0x57u8, 0x45u8, 0x42u8, 0x50u8]
}

/// The WAVE form tag within a RIFF container.
pub open spec fn spec_wave_tag() -> Seq<u8> {
    seq![0x57u8, 0x41u8, 0x56u8, 0x45u8]
}

/// True when the bytes are a RIFF container carrying the given form tag at
/// offset 8.
pub open spec fn spec_is_riff_form(d: Seq<u8>, tag: Seq<u8>) -> bool {
    d.len() >= 12 && spec_starts_with(d, spec_riff_sig()) && d.subrange(8, 12) == tag
}

/// True when the bytes begin a WebP image (RIFF with a WEBP form).
pub open spec fn spec_is_webp(d: Seq<u8>) -> bool {
    spec_is_riff_form(d, spec_webp_tag())
}

/// True when the bytes begin a WAV audio stream (RIFF with a WAVE form).
pub open spec fn spec_is_wav(d: Seq<u8>) -> bool {
    spec_is_riff_form(d, spec_wave_tag())
}

/// Shared implementation for the two RIFF forms.
fn is_riff_form(d: &[u8], t0: u8, t1: u8, t2: u8, t3: u8) -> (r: bool)
    ensures
        r == spec_is_riff_form(d@, seq![t0, t1, t2, t3]),
{
    let riff: [u8; 4] = [0x52, 0x49, 0x46, 0x46];
    proof {
        assert(riff@ =~= spec_riff_sig());
    }
    if d.len() >= 12 && slice_starts_with(d, riff.as_slice()) {
        let r = d[8] == t0 && d[9] == t1 && d[10] == t2 && d[11] == t3;
        proof {
            if r {
                assert(d@.subrange(8, 12) =~= seq![t0, t1, t2, t3]);
            } else {
                assert(d@.subrange(8, 12)[0] == d@[8]);
                assert(d@.subrange(8, 12)[1] == d@[9]);
                assert(d@.subrange(8, 12)[2] == d@[10]);
                assert(d@.subrange(8, 12)[3] == d@[11]);
            }
        }
        r
    } else {
        false
    }
}

/// Exec mirror of [`spec_is_webp`].
pub fn is_webp(d: &[u8]) -> (r: bool)
    ensures
        r == spec_is_webp(d@),
{
    is_riff_form(d, 0x57, 0x45, 0x42, 0x50)
}

/// Exec mirror of [`spec_is_wav`].
pub fn is_wav(d: &[u8]) -> (r: bool)
    ensures
        r == spec_is_wav(d@),
{
    is_riff_form(d, 0x57, 0x41, 0x56, 0x45)
}

/// The BMP signature, `BM`.
pub open spec fn spec_bmp_sig() -> Seq<u8> {
    seq![0x42u8, 0x4Du8]
}

/// True when the bytes begin with the BMP signature.
pub open spec fn spec_is_bmp(d: Seq<u8>) -> bool {
    spec_starts_with(d, spec_bmp_sig())
}

/// Exec mirror of [`spec_is_bmp`].
pub fn is_bmp(d: &[u8]) -> (r: bool)
    ensures
        r == spec_is_bmp(d@),
{
    let sig: [u8; 2] = [0x42, 0x4D];
    proof {
        assert(sig@ =~= spec_bmp_sig());
    }
    slice_starts_with(d, sig.as_slice())
}

/// The PDF signature, `%PDF-`.
pub open spec fn spec_pdf_sig() -> Seq<u8> {
    seq![0x25u8, 0x50u8, 0x44u8, 0x46u8, 0x2Du8]
}

/// True when the bytes begin with the PDF signature.
pub open spec fn spec_is_pdf(d: Seq<u8>) -> bool {
    spec_starts_with(d, spec_pdf_sig())
}

/// Exec mirror of [`spec_is_pdf`].
pub fn is_pdf(d: &[u8]) -> (r: bool)
    ensures
        r == spec_is_pdf(d@),
{
    let sig: [u8; 5] = [0x25, 0x50, 0x44, 0x46, 0x2D];
    proof {
        assert(sig@ =~= spec_pdf_sig());
    }
    slice_starts_with(d, sig.as_slice())
}

/// The ZIP local-file-header signature.
pub open spec fn spec_zip_sig() -> Seq<u8> {
    seq![0x50u8, 0x4Bu8, 0x03u8, 0x04u8]
}

/// True when the bytes begin with the ZIP local-file-header signature.
pub open spec fn spec_is_zip(d: Seq<u8>) -> bool {
    spec_starts_with(d, spec_zip_sig())
}

/// Exec mirror of [`spec_is_zip`].
pub fn is_zip(d: &[u8]) -> (r: bool)
    ensures
        r == spec_is_zip(d@),
{
    let sig: [u8; 4] = [0x50, 0x4B, 0x03, 0x04];
    proof {
        assert(sig@ =~= spec_zip_sig());
    }
    slice_starts_with(d, sig.as_slice())
}

/// The MP3 ID3 tag signature.
pub open spec fn spec_id3_sig() -> Seq<u8> {
    seq![0x49u8, 0x44u8, 0x33u8]
}

/// True when the bytes begin an MP3 stream: an ID3 tag, or an MPEG frame
/// sync (eleven set bits).
pub open spec fn spec_is_mp3(d: Seq<u8>) -> bool {
    spec_starts_with(d, spec_id3_sig()) || (d.len() >= 2 && d[0] == 0xFF && d[1] & 0xE0 == 0xE0)
}

/// Exec mirror of [`spec_is_mp3`].
pub fn is_mp3(d: &[u8]) -> (r: bool)
    ensures
        r == spec_is_mp3(d@),
{
    let sig: [u8; 3] = [0x49, 0x44, 0x33];
    proof {
        assert(sig@ =~= spec_id3_sig());
    }
    slice_starts_with(d, sig.as_slice()) || (d.len() >= 2 && d[0] == 0xFF && d[1] & 0xE0 == 0xE0)
}

/// True when the bytes begin with the UTF-8 byte-order mark.
pub open spec fn spec_bom_utf8(d: Seq<u8>) -> bool {
    d.len() >= 3 && d[0] == 0xEF && d[1] == 0xBB && d[2] == 0xBF
}

/// Exec mirror of [`spec_bom_utf8`].
pub fn has_bom_utf8(d: &[u8]) -> (r: bool)
    ensures
        r == spec_bom_utf8(d@),
{
    d.len() >= 3 && d[0] == 0xEF && d[1] == 0xBB && d[2] == 0xBF
}

/// True when the bytes begin with the little-endian UTF-16 byte-order mark.
pub open spec fn spec_bom_utf16le(d: Seq<u8>) -> bool {
    d.len() >= 2 && d[0] == 0xFF && d[1] == 0xFE
}

/// Exec mirror of [`spec_bom_utf16le`].
pub fn has_bom_utf16le(d: &[u8]) -> (r: bool)
    ensures
        r == spec_bom_utf16le(d@),
{
    d.len() >= 2 && d[0] == 0xFF && d[1] == 0xFE
}

/// True when the bytes begin with the big-endian UTF-16 byte-order mark.
pub open spec fn spec_bom_utf16be(d: Seq<u8>) -> bool {
    d.len() >= 2 && d[0] == 0xFE && d[1] == 0xFF
}

/// Exec mirror of [`spec_bom_utf16be`].
pub fn has_bom_utf16be(d: &[u8]) -> (r: bool)
    ensures
        r == spec_bom_utf16be(d@),
{
    d.len() >= 2 && d[0] == 0xFE && d[1] == 0xFF
}

/// The sniffed prefix: at most `n` bytes from the head of the buffer.
pub fn head<'a>(d: &'a [u8], n: usize) -> (r: &'a [u8])
    ensures
        r@ == d@.take(if n <= d@.len() {
            n as int
        } else {
            d@.len() as int
        }),
{
    let m = if n <= d.len() {
        n
    } else {
        d.len()
    };
    let r = slice_subrange(d, 0, m);
    proof {
        assert(d@.subrange(0, m as int) =~= d@.take(m as int));
    }
    r
}

/// Validates UTF-8 against the reference grammar [`valid_utf8`]: every
/// scalar must have well-formed leading and continuation bytes, no overlong
/// encoding and no surrogate value.
pub fn is_utf8(d: &[u8]) -> (r: bool)
    ensures
        r == valid_utf8(d@),
{
    let n = d.len();
    let mut i: usize = 0;
    proof {
        assert(d@.skip(0) == d@);
    }
    while i < n
        invariant
            n == d@.len(),
            i <= n,
            valid_utf8(d@) == valid_utf8(d@.skip(i as int)),
        decreases n - i,
    {
        let ghost s = d@.skip(i as int);
        let b0 = d[i];
        let rem = n - i;
        assert(s[0] == b0);
        assert(s.len() == rem);
        let width: usize;
        if b0 <= 0x7F {
            // One byte; never overlong, never a surrogate.
            assert(valid_first_scalar(s)) by {
                assert(is_leading_byte_width_1(b0));
                assert(length_of_first_scalar(s) == 1);
            }
            width = 1;
        } else if 0xC0 <= b0 && b0 <= 0xDF {
            if !(rem >= 2 && is_cont(d[i + 1])) {
                proof {
                    if s.len() >= 2 {
                        assert(s[1] == d@[i + 1]);
                    }
                    lemma_invalid_head(s, 2);
                }
                return false;
            }
            let b1 = d[i + 1];
            assert(s[1] == b1);
            let cp = (((b0 & 0x1F) as u32) << 6u32) | ((b1 & 0x3F) as u32);
            proof {
                assert(!is_leading_byte_width_1(b0));
                assert(valid_leading_and_continuation_bytes_first_codepoint(s));
                assert(length_of_first_codepoint(s) == 2);
                assert(decode_first_codepoint(s) == cp);
                assert((((b0 & 0x1F) as u32) << 6u32) | ((b1 & 0x3F) as u32) <= 0x7FF)
                    by (bit_vector);
            }
            if cp < 0x80 {
                // Overlong two-byte encoding.
                assert(!valid_first_scalar(s));
                return false;
            }
            assert(valid_first_scalar(s));
            assert(length_of_first_scalar(s) == 2);
            width = 2;
        } else if 0xE0 <= b0 && b0 <= 0xEF {
            if !(rem >= 3 && is_cont(d[i + 1]) && is_cont(d[i + 2])) {
                proof {
                    if s.len() >= 2 {
                        assert(s[1] == d@[i + 1]);
                    }
                    if s.len() >= 3 {
                        assert(s[2] == d@[i + 2]);
                    }
                    lemma_invalid_head(s, 3);
                }
                return false;
            }
            let b1 = d[i + 1];
            let b2 = d[i + 2];
            assert(s[1] == b1 && s[2] == b2);
            let cp = (((b0 & 0x0F) as u32) << 12u32) | (((b1 & 0x3F) as u32) << 6u32) | ((b2
                & 0x3F) as u32);
            proof {
                assert(!is_leading_byte_width_1(b0) && !is_leading_byte_width_2(b0));
                assert(valid_leading_and_continuation_bytes_first_codepoint(s));
                assert(length_of_first_codepoint(s) == 3);
                assert(decode_first_codepoint(s) == cp);
            }
            if cp < 0x800 || (0xD800 <= cp && cp <= 0xDFFF) {
                // Overlong three-byte encoding, or a surrogate.
                assert(!valid_first_scalar(s));
                return false;
            }
            assert(valid_first_scalar(s));
            assert(length_of_first_scalar(s) == 3);
            width = 3;
        } else if 0xF0 <= b0 && b0 <= 0xF7 {
            if !(rem >= 4 && is_cont(d[i + 1]) && is_cont(d[i + 2]) && is_cont(d[i + 3])) {
                proof {
                    if s.len() >= 2 {
                        assert(s[1] == d@[i + 1]);
                    }
                    if s.len() >= 3 {
                        assert(s[2] == d@[i + 2]);
                    }
                    if s.len() >= 4 {
                        assert(s[3] == d@[i + 3]);
                    }
                    lemma_invalid_head(s, 4);
                }
                return false;
            }
            let b1 = d[i + 1];
            let b2 = d[i + 2];
            let b3 = d[i + 3];
            assert(s[1] == b1 && s[2] == b2 && s[3] == b3);
            let cp = (((b0 & 0x07) as u32) << 18u32) | (((b1 & 0x3F) as u32) << 12u32) | (((b2
                & 0x3F) as u32) << 6u32) | ((b3 & 0x3F) as u32);
            proof {
                assert(!is_leading_byte_width_1(b0) && !is_leading_byte_width_2(b0)
                    && !is_leading_byte_width_3(b0));
                assert(valid_leading_and_continuation_bytes_first_codepoint(s));
                assert(length_of_first_codepoint(s) == 4);
                assert(decode_first_codepoint(s) == cp);
            }
            if !(0x10000 <= cp && cp <= 0x10FFFF) {
                // Overlong four-byte encoding, or beyond the last scalar.
                assert(!valid_first_scalar(s));
                return false;
            }
            assert(valid_first_scalar(s));
            assert(length_of_first_scalar(s) == 4);
            width = 4;
        } else {
            // 0x80..=0xBF as a leader, or 0xF8..=0xFF: no valid width.
            assert(!valid_leading_and_continuation_bytes_first_codepoint(s));
            return false;
        }
        proof {
            assert(pop_first_scalar(s) =~= d@.skip(i + width));
        }
        i = i + width;
    }
    proof {
        assert(d@.skip(n as int) =~= Seq::<u8>::empty());
    }
    true
}

/// Exec mirror of [`is_continuation_byte`].
fn is_cont(b: u8) -> (r: bool)
    ensures
        r == is_continuation_byte(b),
{
    0x80 <= b && b <= 0xBF
}

/// An encoding of width `w` starting at the head of `s` is impossible:
/// either the bytes run out or a continuation byte is malformed; together
/// with the leading byte's class this refutes `valid_first_scalar`.
proof fn lemma_invalid_head(s: Seq<u8>, w: int)
    requires
        s.len() >= 1,
        w == 2 ==> is_leading_byte_width_2(s[0]) && !(s.len() >= 2 && is_continuation_byte(s[1])),
        w == 3 ==> is_leading_byte_width_3(s[0]) && !(s.len() >= 3 && is_continuation_byte(s[1])
            && is_continuation_byte(s[2])),
        w == 4 ==> is_leading_byte_width_4(s[0]) && !(s.len() >= 4 && is_continuation_byte(s[1])
            && is_continuation_byte(s[2]) && is_continuation_byte(s[3])),
        w == 2 || w == 3 || w == 4,
    ensures
        !valid_first_scalar(s),
{
    assert(!valid_leading_and_continuation_bytes_first_codepoint(s));
}

/// True of printable ASCII plus tab, carriage return and line feed.
pub open spec fn spec_is_printable(b: u8) -> bool {
    (0x20 <= b && b <= 0x7E) || b == 0x0A || b == 0x0D || b == 0x09
}

/// How many bytes of the sequence are printable in the sense of
/// [`spec_is_printable`].
pub open spec fn spec_printable_count(d: Seq<u8>) -> nat
    decreases d.len(),
{
    if d.len() == 0 {
        0
    } else {
        spec_printable_count(d.drop_last()) + if spec_is_printable(d.last()) {
            1nat
        } else {
            0nat
        }
    }
}

/// The printable ASCII ratio in parts per million, rounded down; zero for an
/// empty buffer. Always at most one million.
pub open spec fn spec_printable_ppm(d: Seq<u8>) -> int {
    if d.len() == 0 {
        0
    } else {
        (spec_printable_count(d) as int) * 1_000_000 / (d.len() as int)
    }
}

/// Counts printable bytes and returns the ratio in parts per million.
pub fn ascii_printable_ppm(d: &[u8]) -> (r: u32)
    ensures
        r == spec_printable_ppm(d@),
        r <= 1_000_000,
{
    let n = d.len();
    if n == 0 {
        return 0;
    }
    let mut count: usize = 0;
    let mut i: usize = 0;
    while i < n
        invariant
            n == d@.len(),
            i <= n,
            count == spec_printable_count(d@.take(i as int)),
            count <= i,
        decreases n - i,
    {
        let b = d[i];
        proof {
            assert(d@.take(i + 1).drop_last() =~= d@.take(i as int));
            assert(d@.take(i + 1).last() == d@[i as int]);
        }
        if (0x20 <= b && b <= 0x7E) || b == 0x0A || b == 0x0D || b == 0x09 {
            count = count + 1;
        }
        i = i + 1;
    }
    proof {
        assert(d@.take(n as int) =~= d@);
    }
    let wide = (count as u128) * 1_000_000u128;
    let ppm = wide / (n as u128);
    proof {
        lemma_mul_inequality(count as int, n as int, 1_000_000);
        lemma_div_is_ordered((count as int) * 1_000_000, (n as int) * 1_000_000, n as int);
        lemma_div_multiples_vanish(1_000_000, n as int);
        assert((n as int) * 1_000_000 == 1_000_000 * (n as int));
    }
    ppm as u32
}

} // verus!
