//! Structured-container fast path of the decode chain.
//!
//! Parses an in-memory WAV image: a RIFF header, then chunks, of which the
//! first `fmt ` chunk gives the sample encoding and the first `data` chunk
//! the raw samples. Integer samples are normalized exactly through the
//! divisor table; 32-bit float samples pass through as raw bits. Any other
//! encoding is a fast-path failure, which the decode chain answers by
//! falling through to the next tier.

use vstd::prelude::*;

use crate::sample::{
    divisor_for_bits, fast_path_supported, normalize_int, supported_by_fast_path, DecodedAudio,
    Encoding, Sample, SampleFamily,
};

verus! {

/// Why the fast path gave up on a file image. Every variant is a tier
/// failure that asks for fallback, not an error to the caller.
#[derive(Clone, Copy, PartialEq, Eq, Structural, Debug)]
pub enum FastPathError {
    /// The image does not start with a RIFF/WAVE header.
    NotRiff,
    /// No `fmt ` chunk followed by a `data` chunk was found.
    MissingChunks,
    /// The `fmt ` chunk is too short to hold the format fields.
    BadFormatChunk,
    /// The declared channel count or sample rate is zero.
    InvalidSpec,
    /// The declared encoding is outside the fast path's table
    /// (64-bit floats and non-PCM encodings included).
    Unsupported { format_tag: u16, bits: u16 },
}

/// Little-endian 16-bit value at byte offset `i`.
pub open spec fn le16(b: Seq<u8>, i: int) -> int {
    b[i] as int + 256 * (b[i + 1] as int)
}

/// Little-endian 24-bit value at byte offset `i`.
pub open spec fn le24(b: Seq<u8>, i: int) -> int {
    b[i] as int + 256 * (b[i + 1] as int) + 65536 * (b[i + 2] as int)
}

/// Little-endian 32-bit value at byte offset `i`.
pub open spec fn le32(b: Seq<u8>, i: int) -> int {
    b[i] as int + 256 * (b[i + 1] as int) + 65536 * (b[i + 2] as int) + 16777216 * (b[i + 3] as int)
}

/// The four bytes at `off` spell the given chunk identifier.
pub open spec fn is_chunk_id(b: Seq<u8>, off: int, c0: u8, c1: u8, c2: u8, c3: u8) -> bool {
    b[off] == c0 && b[off + 1] == c1 && b[off + 2] == c2 && b[off + 3] == c3
}

/// The image starts with `RIFF`, four size bytes, then `WAVE`.
pub open spec fn has_riff_header(b: Seq<u8>) -> bool {
    b.len() >= 12 && is_chunk_id(b, 0, 82, 73, 70, 70)  // "RIFF"
     && is_chunk_id(b, 8, 87, 65, 86, 69)  // "WAVE"
}

/// Where the format and sample chunks of a WAV image lie: each offset
/// points at the chunk's payload, each length is the payload's byte count.
pub struct FoundChunks {
    pub fmt_off: int,
    pub fmt_len: int,
    pub data_off: int,
    pub data_len: int,
}

/// Walk the chunk list from `off`, remembering the first `fmt ` chunk, and
/// stop at the first `data` chunk that follows one. Chunks are padded to an
/// even length. A truncated chunk, or a `data` chunk with no `fmt ` before
/// it, ends the walk with nothing.
pub open spec fn scan_chunks(b: Seq<u8>, off: int, fmt: Option<(int, int)>) -> Option<FoundChunks>
    decreases b.len() - off,
{
    if off < 0 || off + 8 > b.len() {
        None
    } else {
        let size = le32(b, off + 4);
        if off + 8 + size > b.len() {
            None
        } else {
            let next = off + 8 + size + (if size % 2 == 1 { 1int } else { 0int });
            let next_clamped = if next > b.len() { b.len() as int } else { next };
            if is_chunk_id(b, off, 102, 109, 116, 32) {  // "fmt "
                let new_fmt = if fmt is Some { fmt } else { Some((off + 8, size)) };
                scan_chunks(b, next_clamped, new_fmt)
            } else if is_chunk_id(b, off, 100, 97, 116, 97) {  // "data"
                match fmt {
                    Some(p) => Some(
                        FoundChunks { fmt_off: p.0, fmt_len: p.1, data_off: off + 8, data_len: size },
                    ),
                    None => None,
                }
            } else {
                scan_chunks(b, next_clamped, fmt)
            }
        }
    }
}

/// The chunks a WAV image yields, if it has a RIFF header at all.
pub open spec fn wav_chunks(b: Seq<u8>) -> Option<FoundChunks> {
    if has_riff_header(b) {
        scan_chunks(b, 12, None)
    } else {
        None
    }
}

/// The encoding the format chunk declares: tag 1 is integer PCM, tag 3 is
/// IEEE float; any other tag is not an encoding the fast path can name.
pub open spec fn wav_encoding(b: Seq<u8>, f: FoundChunks) -> Option<Encoding> {
    let tag = le16(b, f.fmt_off);
    let bits = le16(b, f.fmt_off + 14) as u16;
    if tag == 1 {
        Some(Encoding { family: SampleFamily::Int, bits })
    } else if tag == 3 {
        Some(Encoding { family: SampleFamily::Float, bits })
    } else {
        None
    }
}

/// Reinterpret an unsigned value below `full` as two's-complement with
/// sign bit at `half`.
pub open spec fn sign_extend(v: int, half: int, full: int) -> int {
    if v >= half {
        v - full
    } else {
        v
    }
}

/// Raw value of the `j`-th integer sample of the data chunk: 8-bit samples
/// are stored unsigned and re-centered, wider ones are little-endian
/// two's-complement.
pub open spec fn int_sample_value(b: Seq<u8>, bits: u16, data_off: int, j: int) -> int {
    if bits == 8 {
        b[data_off + j] as int - 128
    } else if bits == 16 {
        sign_extend(le16(b, data_off + 2 * j), 32768, 65536)
    } else if bits == 24 {
        sign_extend(le24(b, data_off + 3 * j), 8388608, 16777216)
    } else {
        sign_extend(le32(b, data_off + 4 * j), 2147483648, 4294967296)
    }
}

/// The `j`-th canonical sample the fast path owes for a supported encoding:
/// integer samples keep their raw value over the table divisor, float
/// samples keep their raw bits.
pub open spec fn wav_sample(b: Seq<u8>, e: Encoding, data_off: int, j: int) -> Sample {
    match e.family {
        SampleFamily::Int => Sample::Scaled {
            value: int_sample_value(b, e.bits, data_off, j) as i32,
            divisor: divisor_for_bits(e.bits),
        },
        SampleFamily::Float => Sample::FloatBits { bits: le32(b, data_off + 4 * j) as u32 },
    }
}

/// How many bytes one sample of this encoding occupies.
pub open spec fn bytes_per_sample(e: Encoding) -> int {
    e.bits as int / 8
}

/// How many whole samples the data chunk holds.
pub open spec fn sample_count(f: FoundChunks, e: Encoding) -> int {
    f.data_len / bytes_per_sample(e)
}

/// A WAV image the fast path owes a decode for: header and chunks present,
/// format fields readable and sane, encoding in the table.
pub open spec fn wav_decodable(b: Seq<u8>) -> bool {
    wav_chunks(b) matches Some(f) && f.fmt_len >= 16 && le16(b, f.fmt_off + 2) >= 1 && le32(
        b,
        f.fmt_off + 4,
    ) >= 1 && (wav_encoding(b, f) matches Some(e) && fast_path_supported(e))
}

/// Integer decoding is exact and keeps the signed asymmetry. Whatever the
/// bytes, the raw value read for a sample lies in the two's-complement
/// range of its width, and the canonical sample stores that raw value
/// verbatim over the table divisor: the signal `value / divisor` can reach
/// `-1` exactly — at the most negative raw value, which is not clamped —
/// while staying at or below `(divisor - 1) / divisor`, strictly short of
/// `+1`. Recovering the raw value from the sample is therefore exact, well
/// within one quantization step `1 / divisor`.
pub proof fn lemma_int_sample_exact_and_asymmetric(b: Seq<u8>, e: Encoding, data_off: int, j: int)
    requires
        e.family == SampleFamily::Int,
        e.bits == 8 || e.bits == 16 || e.bits == 24 || e.bits == 32,
    ensures
        ({
            let s = wav_sample(b, e, data_off, j);
            let raw = int_sample_value(b, e.bits, data_off, j);
            let d = divisor_for_bits(e.bits) as int;
            s matches Sample::Scaled { value, divisor } && {
                &&& divisor == divisor_for_bits(e.bits)
                &&& value as int == raw
                &&& -d <= raw
                &&& raw <= d - 1
            }
        }),
{
}

fn read_le_u16(data: &Vec<u8>, i: usize) -> (r: u16)
    requires
        i + 2 <= data.len(),
    ensures
        r as int == le16(data@, i as int),
{
    data[i] as u16 + (data[i + 1] as u16) * 256
}

fn read_le_u24(data: &Vec<u8>, i: usize) -> (r: u32)
    requires
        i + 3 <= data.len(),
    ensures
        r as int == le24(data@, i as int),
{
    data[i] as u32 + (data[i + 1] as u32) * 256 + (data[i + 2] as u32) * 65536
}

fn read_le_u32(data: &Vec<u8>, i: usize) -> (r: u32)
    requires
        i + 4 <= data.len(),
    ensures
        r as int == le32(data@, i as int),
{
    data[i] as u32 + (data[i + 1] as u32) * 256 + (data[i + 2] as u32) * 65536 + (data[i + 3]
        as u32) * 16777216
}

fn chunk_id_is(data: &Vec<u8>, off: usize, c0: u8, c1: u8, c2: u8, c3: u8) -> (r: bool)
    requires
        off + 4 <= data.len(),
    ensures
        r == is_chunk_id(data@, off as int, c0, c1, c2, c3),
{
    data[off] == c0 && data[off + 1] == c1 && data[off + 2] == c2 && data[off + 3] == c3
}

fn extract_int8(data: &Vec<u8>, data_off: usize, n: usize, Ghost(e): Ghost<Encoding>) -> (out: Vec<
    Sample,
>)
    requires
        e.family == SampleFamily::Int,
        e.bits == 8,
        data_off + n <= data.len(),
    ensures
        out@.len() == n as int,
        forall|j: int| 0 <= j < n as int ==> out@[j] == wav_sample(data@, e, data_off as int, j),
{
    let mut out: Vec<Sample> = Vec::new();
    let mut j: usize = 0;
    while j < n
        invariant
            j <= n,
            data_off + n <= data.len(),
            e.family == SampleFamily::Int,
            e.bits == 8,
            out@.len() == j as int,
            forall|k: int| 0 <= k < j as int ==> out@[k] == wav_sample(data@, e, data_off as int, k),
        decreases n - j,
    {
        let value: i32 = data[data_off + j] as i32 - 128;
        out.push(normalize_int(value, 8));
        j = j + 1;
    }
    out
}

fn extract_int16(data: &Vec<u8>, data_off: usize, n: usize, Ghost(e): Ghost<Encoding>) -> (out: Vec<
    Sample,
>)
    requires
        e.family == SampleFamily::Int,
        e.bits == 16,
        data_off + 2 * n <= data.len(),
    ensures
        out@.len() == n as int,
        forall|j: int| 0 <= j < n as int ==> out@[j] == wav_sample(data@, e, data_off as int, j),
{
    let mut out: Vec<Sample> = Vec::new();
    let mut j: usize = 0;
    while j < n
        invariant
            j <= n,
            data_off + 2 * n <= data.len(),
            e.family == SampleFamily::Int,
            e.bits == 16,
            out@.len() == j as int,
            forall|k: int| 0 <= k < j as int ==> out@[k] == wav_sample(data@, e, data_off as int, k),
        decreases n - j,
    {
        let u = read_le_u16(data, data_off + 2 * j);
        let value: i32 = if u >= 32768 {
            u as i32 - 65536
        } else {
            u as i32
        };
        out.push(normalize_int(value, 16));
        j = j + 1;
    }
    out
}

fn extract_int24(data: &Vec<u8>, data_off: usize, n: usize, Ghost(e): Ghost<Encoding>) -> (out: Vec<
    Sample,
>)
    requires
        e.family == SampleFamily::Int,
        e.bits == 24,
        data_off + 3 * n <= data.len(),
    ensures
        out@.len() == n as int,
        forall|j: int| 0 <= j < n as int ==> out@[j] == wav_sample(data@, e, data_off as int, j),
{
    let mut out: Vec<Sample> = Vec::new();
    let mut j: usize = 0;
    while j < n
        invariant
            j <= n,
            data_off + 3 * n <= data.len(),
            e.family == SampleFamily::Int,
            e.bits == 24,
            out@.len() == j as int,
            forall|k: int| 0 <= k < j as int ==> out@[k] == wav_sample(data@, e, data_off as int, k),
        decreases n - j,
    {
        let u = read_le_u24(data, data_off + 3 * j);
        let value: i32 = if u >= 8388608 {
            u as i32 - 16777216
        } else {
            u as i32
        };
        out.push(normalize_int(value, 24));
        j = j + 1;
    }
    out
}

fn extract_int32(data: &Vec<u8>, data_off: usize, n: usize, Ghost(e): Ghost<Encoding>) -> (out: Vec<
    Sample,
>)
    requires
        e.family == SampleFamily::Int,
        e.bits == 32,
        data_off + 4 * n <= data.len(),
    ensures
        out@.len() == n as int,
        forall|j: int| 0 <= j < n as int ==> out@[j] == wav_sample(data@, e, data_off as int, j),
{
    let mut out: Vec<Sample> = Vec::new();
    let mut j: usize = 0;
    while j < n
        invariant
            j <= n,
            data_off + 4 * n <= data.len(),
            e.family == SampleFamily::Int,
            e.bits == 32,
            out@.len() == j as int,
            forall|k: int| 0 <= k < j as int ==> out@[k] == wav_sample(data@, e, data_off as int, k),
        decreases n - j,
    {
        let u = read_le_u32(data, data_off + 4 * j);
        let value: i32 = if u >= 2147483648 {
            ((u - 2147483648) as i32) + i32::MIN
        } else {
            u as i32
        };
        out.push(normalize_int(value, 32));
        j = j + 1;
    }
    out
}

fn extract_float32(data: &Vec<u8>, data_off: usize, n: usize, Ghost(e): Ghost<Encoding>) -> (out:
    Vec<Sample>)
    requires
        e.family == SampleFamily::Float,
        e.bits == 32,
        data_off + 4 * n <= data.len(),
    ensures
        out@.len() == n as int,
        forall|j: int| 0 <= j < n as int ==> out@[j] == wav_sample(data@, e, data_off as int, j),
{
    let mut out: Vec<Sample> = Vec::new();
    let mut j: usize = 0;
    while j < n
        invariant
            j <= n,
            data_off + 4 * n <= data.len(),
            e.family == SampleFamily::Float,
            e.bits == 32,
            out@.len() == j as int,
            forall|k: int| 0 <= k < j as int ==> out@[k] == wav_sample(data@, e, data_off as int, k),
        decreases n - j,
    {
        let u = read_le_u32(data, data_off + 4 * j);
        out.push(Sample::FloatBits { bits: u });
        j = j + 1;
    }
    out
}

/// Decode a WAV image through the structured fast path.
///
/// On success the buffer carries the declared channel count and sample
/// rate, and every whole sample of the data chunk, normalized exactly per
/// the divisor table. Each error names the first thing that ruled the fast
/// path out; all of them mean "fall through to the next tier".
pub fn decode_fast_path(data: &Vec<u8>) -> (r: Result<DecodedAudio, FastPathError>)
    ensures
        r is Ok <==> wav_decodable(data@),
        r matches Ok(d) ==> wav_chunks(data@) matches Some(f) && wav_encoding(data@, f)
            matches Some(e) && {
            &&& d.channels as int == le16(data@, f.fmt_off + 2)
            &&& d.sample_rate as int == le32(data@, f.fmt_off + 4)
            &&& d.samples@.len() == sample_count(f, e)
            &&& forall|j: int|
                0 <= j < d.samples@.len() ==> d.samples@[j] == wav_sample(data@, e, f.data_off, j)
        },
        (r matches Err(e) && e == FastPathError::NotRiff) <==> !has_riff_header(data@),
        (r matches Err(e) && e == FastPathError::MissingChunks) <==> has_riff_header(data@) && scan_chunks(
            data@,
            12,
            None,
        ) is None,
        (r matches Err(e) && e == FastPathError::BadFormatChunk) <==> (wav_chunks(data@) matches Some(f)
            && f.fmt_len < 16),
        (r matches Err(e) && e == FastPathError::InvalidSpec) <==> (wav_chunks(data@) matches Some(f) && f.fmt_len
            >= 16 && (le16(data@, f.fmt_off + 2) == 0 || le32(data@, f.fmt_off + 4) == 0)),
        r matches Err(FastPathError::Unsupported { format_tag, bits }) ==> (wav_chunks(data@)
            matches Some(f) && format_tag as int == le16(data@, f.fmt_off) && bits as int == le16(
            data@,
            f.fmt_off + 14,
        )),
        (r matches Err(FastPathError::Unsupported { .. })) <==> (wav_chunks(data@) matches Some(f)
            && f.fmt_len >= 16 && le16(data@, f.fmt_off + 2) >= 1 && le32(data@, f.fmt_off + 4) >= 1
            && !(wav_encoding(data@, f) matches Some(e) && fast_path_supported(e))),
{
    if data.len() < 12 {
        return Err(FastPathError::NotRiff);
    }
    if !(chunk_id_is(data, 0, 82, 73, 70, 70) && chunk_id_is(data, 8, 87, 65, 86, 69)) {
        return Err(FastPathError::NotRiff);
    }
    let mut off: usize = 12;
    let mut have_fmt = false;
    let mut fmt_off: usize = 0;
    let mut fmt_len: usize = 0;
    let mut have_data = false;
    let mut data_off: usize = 0;
    let mut data_len: usize = 0;
    while !have_data
        invariant
            has_riff_header(data@),
            12 <= off,
            off as int <= data.len(),
            have_fmt ==> fmt_off as int + fmt_len as int <= data.len(),
            have_fmt ==> fmt_off >= 12,
            have_data ==> have_fmt,
            have_data ==> data_off as int + data_len as int <= data.len(),
            !have_data ==> scan_chunks(data@, 12, None) == scan_chunks(
                data@,
                off as int,
                if have_fmt {
                    Some((fmt_off as int, fmt_len as int))
                } else {
                    None
                },
            ),
            have_data ==> scan_chunks(data@, 12, None) == Some(
                FoundChunks {
                    fmt_off: fmt_off as int,
                    fmt_len: fmt_len as int,
                    data_off: data_off as int,
                    data_len: data_len as int,
                },
            ),
        decreases
                data.len() - off + if have_data {
                    0int
                } else {
                    1int
                },
    {
        if data.len() - off < 8 {
            return Err(FastPathError::MissingChunks);
        }
        let size = read_le_u32(data, off + 4);
        let size_us = size as usize;
        if data.len() - off - 8 < size_us {
            return Err(FastPathError::MissingChunks);
        }
        if chunk_id_is(data, off, 102, 109, 116, 32) {
            if !have_fmt {
                have_fmt = true;
                fmt_off = off + 8;
                fmt_len = size_us;
            }
            let base = off + 8 + size_us;
            off = if size_us % 2 == 1 && base < data.len() {
                base + 1
            } else {
                base
            };
        } else if chunk_id_is(data, off, 100, 97, 116, 97) {
            if !have_fmt {
                return Err(FastPathError::MissingChunks);
            }
            have_data = true;
            data_off = off + 8;
            data_len = size_us;
        } else {
            let base = off + 8 + size_us;
            off = if size_us % 2 == 1 && base < data.len() {
                base + 1
            } else {
                base
            };
        }
    }
    if fmt_len < 16 {
        return Err(FastPathError::BadFormatChunk);
    }
    let tag = read_le_u16(data, fmt_off);
    let channels = read_le_u16(data, fmt_off + 2);
    let rate = read_le_u32(data, fmt_off + 4);
    let bits_raw = read_le_u16(data, fmt_off + 14);
    if channels == 0 || rate == 0 {
        return Err(FastPathError::InvalidSpec);
    }
    let family = if tag == 1 {
        SampleFamily::Int
    } else if tag == 3 {
        SampleFamily::Float
    } else {
        return Err(FastPathError::Unsupported { format_tag: tag, bits: bits_raw });
    };
    let enc = Encoding { family, bits: bits_raw };
    if !supported_by_fast_path(enc) {
        return Err(FastPathError::Unsupported { format_tag: tag, bits: bits_raw });
    }
    let samples: Vec<Sample> = if enc.bits == 8 {
        let n = data_len;
        extract_int8(data, data_off, n, Ghost(enc))
    } else if enc.bits == 16 {
        let n = data_len / 2;
        extract_int16(data, data_off, n, Ghost(enc))
    } else if enc.bits == 24 {
        let n = data_len / 3;
        extract_int24(data, data_off, n, Ghost(enc))
    } else if matches!(enc.family, SampleFamily::Int) {
        let n = data_len / 4;
        extract_int32(data, data_off, n, Ghost(enc))
    } else {
        let n = data_len / 4;
        extract_float32(data, data_off, n, Ghost(enc))
    };
    proof {
        let f = FoundChunks {
            fmt_off: fmt_off as int,
            fmt_len: fmt_len as int,
            data_off: data_off as int,
            data_len: data_len as int,
        };
        assert(wav_chunks(data@) == Some(f));
        assert(wav_encoding(data@, f) == Some(enc));
        assert(samples@.len() == sample_count(f, enc));
        assert(forall|j: int|
            0 <= j < samples@.len() ==> samples@[j] == wav_sample(data@, enc, f.data_off, j));
    }
    Ok(DecodedAudio { channels, sample_rate: rate, samples })
}

} // verus!
