//! The canonical PCM WAV container, 16-bit signed little-endian depth:
//! a riff header, a fmt chunk (channels, sample rate, byte rate, block
//! align, bits per sample), and a data chunk of the samples. Encoding is
//! written out byte by byte against [`wav_bytes`]; [`parse_wav`] states what
//! a standard reader recovers, and [`lemma_wav_round_trip`] proves that the
//! two invert each other.

use vstd::prelude::*;

verus! {

/// The two little-endian bytes of a 16-bit value.
pub open spec fn le_u16(v: u16) -> Seq<u8> {
    seq![(v & 0xff) as u8, ((v >> 8) & 0xff) as u8]
}

/// The four little-endian bytes of a 32-bit value.
pub open spec fn le_u32(v: u32) -> Seq<u8> {
    seq![
        (v & 0xff) as u8,
        ((v >> 8) & 0xff) as u8,
        ((v >> 16) & 0xff) as u8,
        ((v >> 24) & 0xff) as u8,
    ]
}

/// The 16-bit value read back from two little-endian bytes.
pub open spec fn u16_from(lo: u8, hi: u8) -> u16 {
    (lo as u16) | ((hi as u16) << 8)
}

/// The 32-bit value read back from four little-endian bytes.
pub open spec fn u32_from(b0: u8, b1: u8, b2: u8, b3: u8) -> u32 {
    (b0 as u32) | ((b1 as u32) << 8) | ((b2 as u32) << 16) | ((b3 as u32) << 24)
}

/// The signed sample read back from two little-endian bytes.
pub open spec fn i16_from(lo: u8, hi: u8) -> i16 {
    u16_from(lo, hi) as i16
}

/// The bytes of one sample: its two's-complement bits, little endian.
pub open spec fn sample_le(x: i16) -> Seq<u8> {
    le_u16(x as u16)
}

/// The data chunk payload: every sample's two bytes, in order.
pub open spec fn pcm_data(s: Seq<i16>) -> Seq<u8>
    decreases s.len(),
{
    if s.len() == 0 {
        Seq::empty()
    } else {
        pcm_data(s.drop_last()) + sample_le(s.last())
    }
}

/// When `len` samples at the given shape fit the container: at least one
/// channel and a positive rate, and the block align, byte rate and chunk
/// size fields each fit their fixed-width header slot.
pub open spec fn encodable(len: int, channels: u16, rate: u32) -> bool {
    &&& 0 <= len
    &&& 1 <= channels
    &&& 1 <= rate
    &&& 2 * channels <= u16::MAX
    &&& 2 * channels * rate <= u32::MAX
    &&& 36 + 2 * len <= u32::MAX
}

/// The 44-byte canonical header for a data chunk of `data_len` bytes.
pub open spec fn wav_header(channels: u16, rate: u32, data_len: u32) -> Seq<u8> {
    seq![0x52u8, 0x49u8, 0x46u8, 0x46u8]  // "RIFF"
    + le_u32((36 + data_len) as u32)
    + seq![0x57u8, 0x41u8, 0x56u8, 0x45u8]  // "WAVE"
    + seq![0x66u8, 0x6du8, 0x74u8, 0x20u8]  // "fmt "
    + le_u32(16u32)  // fmt chunk size
    + le_u16(1u16)  // PCM format tag
    + le_u16(channels)
    + le_u32(rate)
    + le_u32((2 * channels * rate) as u32)  // byte rate
    + le_u16((2 * channels) as u16)  // block align
    + le_u16(16u16)  // bits per sample
    + seq![0x64u8, 0x61u8, 0x74u8, 0x61u8]  // "data"
    + le_u32(data_len)
}

/// The complete container for the given samples and device shape.
pub open spec fn wav_bytes(s: Seq<i16>, channels: u16, rate: u32) -> Seq<u8> {
    wav_header(channels, rate, (2 * s.len()) as u32) + pcm_data(s)
}

/// What a standard WAV reader recovers from a byte sequence: the samples,
/// the channel count and the sample rate, or nothing if the bytes are not a
/// single well-formed 16-bit PCM container whose header fields agree with
/// its length.
pub open spec fn parse_wav(b: Seq<u8>) -> Option<(Seq<i16>, u16, u32)> {
    if b.len() < 44 {
        None
    } else {
        let channels = u16_from(b[22], b[23]);
        let rate = u32_from(b[24], b[25], b[26], b[27]);
        let data_len = u32_from(b[40], b[41], b[42], b[43]);
        if {
            &&& b[0] == 0x52 && b[1] == 0x49 && b[2] == 0x46 && b[3] == 0x46
            &&& u32_from(b[4], b[5], b[6], b[7]) == b.len() - 8
            &&& b[8] == 0x57 && b[9] == 0x41 && b[10] == 0x56 && b[11] == 0x45
            &&& b[12] == 0x66 && b[13] == 0x6d && b[14] == 0x74 && b[15] == 0x20
            &&& u32_from(b[16], b[17], b[18], b[19]) == 16
            &&& u16_from(b[20], b[21]) == 1
            &&& 1 <= channels
            &&& 1 <= rate
            &&& u32_from(b[28], b[29], b[30], b[31]) == 2 * channels * rate
            &&& u16_from(b[32], b[33]) == 2 * channels
            &&& u16_from(b[34], b[35]) == 16
            &&& b[36] == 0x64 && b[37] == 0x61 && b[38] == 0x74 && b[39] == 0x61
            &&& data_len == b.len() - 44
            &&& data_len % 2 == 0
        } {
            Some(
                (
                    Seq::new((data_len / 2) as nat, |i: int| i16_from(b[44 + 2 * i], b[45 + 2 * i])),
                    channels,
                    rate,
                ),
            )
        } else {
            None
        }
    }
}

/// The data chunk holds two bytes for every sample.
proof fn lemma_pcm_data_len(s: Seq<i16>)
    ensures
        pcm_data(s).len() == 2 * s.len(),
    decreases s.len(),
{
    if s.len() > 0 {
        lemma_pcm_data_len(s.drop_last());
    }
}

/// Extending the sample prefix by one sample appends that sample's bytes.
proof fn lemma_pcm_data_push(s: Seq<i16>, i: int)
    requires
        0 <= i < s.len(),
    ensures
        pcm_data(s.take(i + 1)) == pcm_data(s.take(i)) + sample_le(s[i]),
{
    assert(s.take(i + 1).drop_last() =~= s.take(i));
    assert(s.take(i + 1).last() == s[i]);
}

/// The two bytes of sample `i` sit at offsets `2 * i` and `2 * i + 1`.
proof fn lemma_pcm_data_index(s: Seq<i16>, i: int)
    requires
        0 <= i < s.len(),
    ensures
        pcm_data(s)[2 * i] == sample_le(s[i])[0],
        pcm_data(s)[2 * i + 1] == sample_le(s[i])[1],
    decreases s.len(),
{
    lemma_pcm_data_len(s.drop_last());
    if i == s.len() - 1 {
        assert(s.last() == s[i]);
    } else {
        lemma_pcm_data_index(s.drop_last(), i);
        assert(s.drop_last()[i] == s[i]);
    }
}

/// Two little-endian bytes of a 16-bit value read back as that value.
proof fn lemma_u16_round_trip(v: u16)
    ensures
        u16_from((v & 0xff) as u8, ((v >> 8) & 0xff) as u8) == v,
{
    assert((((v & 0xff) as u8) as u16) | (((((v >> 8) & 0xff) as u8) as u16) << 8) == v)
        by (bit_vector);
}

/// Four little-endian bytes of a 32-bit value read back as that value.
proof fn lemma_u32_round_trip(v: u32)
    ensures
        u32_from(
            (v & 0xff) as u8,
            ((v >> 8) & 0xff) as u8,
            ((v >> 16) & 0xff) as u8,
            ((v >> 24) & 0xff) as u8,
        ) == v,
{
    assert((((v & 0xff) as u8) as u32) | (((((v >> 8) & 0xff) as u8) as u32) << 8) | (((((v >> 16)
        & 0xff) as u8) as u32) << 16) | (((((v >> 24) & 0xff) as u8) as u32) << 24) == v)
        by (bit_vector);
}

/// A sample survives the trip through its two's-complement bits.
proof fn lemma_i16_round_trip(x: i16)
    ensures
        (x as u16) as i16 == x,
{
    assert((x as u16) as i16 == x) by (bit_vector);
}

/// Values that fit 16 bits keep their value across the cast to `u16`.
proof fn lemma_u16_cast_value(v: int)
    requires
        0 <= v <= u16::MAX,
    ensures
        (v as u16) as int == v,
{
}

/// Values that fit 32 bits keep their value across the cast to `u32`.
proof fn lemma_u32_cast_value(v: int)
    requires
        0 <= v <= u32::MAX,
    ensures
        (v as u32) as int == v,
{
}

/// Appends the four bytes of a tag to the output.
fn push_tag(out: &mut Vec<u8>, t0: u8, t1: u8, t2: u8, t3: u8)
    ensures
        final(out)@ == old(out)@ + seq![t0, t1, t2, t3],
{
    out.push(t0);
    out.push(t1);
    out.push(t2);
    out.push(t3);
    assert(out@ =~= old(out)@ + seq![t0, t1, t2, t3]);
}

/// Appends the two little-endian bytes of a 16-bit field.
fn push_u16_le(out: &mut Vec<u8>, v: u16)
    ensures
        final(out)@ == old(out)@ + le_u16(v),
{
    out.push((v & 0xff) as u8);
    out.push(((v >> 8) & 0xff) as u8);
    assert(out@ =~= old(out)@ + le_u16(v));
}

/// Appends the four little-endian bytes of a 32-bit field.
fn push_u32_le(out: &mut Vec<u8>, v: u32)
    ensures
        final(out)@ == old(out)@ + le_u32(v),
{
    out.push((v & 0xff) as u8);
    out.push(((v >> 8) & 0xff) as u8);
    out.push(((v >> 16) & 0xff) as u8);
    out.push(((v >> 24) & 0xff) as u8);
    assert(out@ =~= old(out)@ + le_u32(v));
}

/// Serializes the samples into a single-or-multichannel 16-bit PCM WAV
/// container at the given channel count and sample rate. Sample content
/// never makes this fail; the only limits are the container's fixed-width
/// size fields, captured by [`encodable`].
pub fn encode(samples: &Vec<i16>, channels: u16, sample_rate: u32) -> (out: Vec<u8>)
    requires
        encodable(samples@.len() as int, channels, sample_rate),
    ensures
        out@ == wav_bytes(samples@, channels, sample_rate),
{
    let n: usize = samples.len();
    let data_len: u32 = (n as u64 * 2) as u32;
    proof {
        lemma_u32_cast_value(2 * samples@.len() as int);
    }
    let byte_rate: u32 = 2 * (channels as u32) * sample_rate;
    let block_align: u16 = 2 * channels;
    let mut out: Vec<u8> = Vec::new();
    push_tag(&mut out, 0x52, 0x49, 0x46, 0x46);  // "RIFF"
    push_u32_le(&mut out, 36 + data_len);
    push_tag(&mut out, 0x57, 0x41, 0x56, 0x45);  // "WAVE"
    push_tag(&mut out, 0x66, 0x6d, 0x74, 0x20);  // "fmt "
    push_u32_le(&mut out, 16);
    push_u16_le(&mut out, 1);
    push_u16_le(&mut out, channels);
    push_u32_le(&mut out, sample_rate);
    push_u32_le(&mut out, byte_rate);
    push_u16_le(&mut out, block_align);
    push_u16_le(&mut out, 16);
    push_tag(&mut out, 0x64, 0x61, 0x74, 0x61);  // "data"
    push_u32_le(&mut out, data_len);
    let ghost header: Seq<u8> = wav_header(channels, sample_rate, (2 * samples@.len()) as u32);
    assert(out@ =~= header);
    let mut i: usize = 0;
    while i < n
        invariant
            0 <= i <= n,
            n == samples@.len(),
            out@ == header + pcm_data(samples@.take(i as int)),
        decreases n - i,
    {
        let s: i16 = samples[i];
        push_u16_le(&mut out, s as u16);
        proof {
            lemma_pcm_data_push(samples@, i as int);
        }
        i = i + 1;
    }
    proof {
        assert(samples@.take(n as int) =~= samples@);
    }
    out
}

/// The byte rate field's value, computed without overflow in 64 bits.
pub(crate) fn byte_rate_wide(channels: u16, rate: u32) -> (v: u64)
    ensures
        v == 2 * channels * rate,
{
    proof {
        assert((2 * (channels as int)) * (rate as int) <= 2 * 0xffff * 0xffff_ffff)
            by (nonlinear_arith)
            requires channels <= 0xffff && rate <= 0xffff_ffff;
    }
    2 * (channels as u64) * (rate as u64)
}

/// Reads a 16-bit little-endian field at `off`.
fn u16_le_at(bytes: &Vec<u8>, off: usize) -> (v: u16)
    requires
        off + 2 <= bytes@.len(),
    ensures
        v == u16_from(bytes@[off as int], bytes@[off as int + 1]),
{
    proof {
        // The vector's length is a usize, so the offsets below cannot wrap.
        assert(bytes.len() == bytes@.len());
    }
    (bytes[off] as u16) | ((bytes[off + 1] as u16) << 8)
}

/// Reads a 32-bit little-endian field at `off`.
fn u32_le_at(bytes: &Vec<u8>, off: usize) -> (v: u32)
    requires
        off + 4 <= bytes@.len(),
    ensures
        v == u32_from(
            bytes@[off as int],
            bytes@[off as int + 1],
            bytes@[off as int + 2],
            bytes@[off as int + 3],
        ),
{
    proof {
        // The vector's length is a usize, so the offsets below cannot wrap.
        assert(bytes.len() == bytes@.len());
    }
    (bytes[off] as u32) | ((bytes[off + 1] as u32) << 8) | ((bytes[off + 2] as u32) << 16) | ((
    bytes[off + 3] as u32) << 24)
}

/// Decodes a 16-bit PCM WAV container back into its samples, channel count
/// and sample rate, exactly as [`parse_wav`] states; malformed bytes yield
/// `None`.
pub fn decode(bytes: &Vec<u8>) -> (r: Option<(Vec<i16>, u16, u32)>)
    ensures
        match r {
            Some(t) => parse_wav(bytes@) == Some((t.0@, t.1, t.2)),
            None => parse_wav(bytes@) is None,
        },
{
    let total: usize = bytes.len();
    if total < 44 {
        return None;
    }
    let channels: u16 = u16_le_at(bytes, 22);
    let rate: u32 = u32_le_at(bytes, 24);
    let data_len: u32 = u32_le_at(bytes, 40);
    let header_ok: bool = {
        &&& bytes[0] == 0x52 && bytes[1] == 0x49 && bytes[2] == 0x46 && bytes[3] == 0x46
        &&& u32_le_at(bytes, 4) as u64 == total as u64 - 8
        &&& bytes[8] == 0x57 && bytes[9] == 0x41 && bytes[10] == 0x56 && bytes[11] == 0x45
        &&& bytes[12] == 0x66 && bytes[13] == 0x6d && bytes[14] == 0x74 && bytes[15] == 0x20
        &&& u32_le_at(bytes, 16) == 16
        &&& u16_le_at(bytes, 20) == 1
        &&& 1 <= channels
        &&& 1 <= rate
        &&& u32_le_at(bytes, 28) as u64 == byte_rate_wide(channels, rate)
        &&& u16_le_at(bytes, 32) as u32 == 2 * (channels as u32)
        &&& u16_le_at(bytes, 34) == 16
        &&& bytes[36] == 0x64 && bytes[37] == 0x61 && bytes[38] == 0x74 && bytes[39] == 0x61
        &&& data_len as u64 == total as u64 - 44
        &&& data_len % 2 == 0
    };
    if !header_ok {
        return None;
    }
    let n: usize = (data_len / 2) as usize;
    let ghost parsed: Seq<i16> = parse_wav(bytes@)->Some_0.0;
    let mut samples: Vec<i16> = Vec::new();
    let mut i: usize = 0;
    while i < n
        invariant
            0 <= i <= n,
            n == parsed.len(),
            44 + 2 * n <= bytes@.len(),
            bytes@.len() <= usize::MAX,
            parsed == parse_wav(bytes@)->Some_0.0,
            parse_wav(bytes@) is Some,
            forall|j: int|
                0 <= j < parsed.len() ==> parsed[j] == i16_from(
                    bytes@[44 + 2 * j],
                    bytes@[45 + 2 * j],
                ),
            samples@ == parsed.take(i as int),
        decreases n - i,
    {
        let v: u16 = u16_le_at(bytes, 44 + 2 * i);
        let sample: i16 = #[verifier::truncate] (v as i16);
        samples.push(sample);
        assert(samples@ =~= parsed.take(i + 1));
        i = i + 1;
    }
    assert(samples@ =~= parsed);
    Some((samples, channels, rate))
}

/// Round-trip fidelity: every sample sequence that fits the container is
/// recovered exactly, together with its channel count and sample rate, when
/// the encoded bytes are read back as [`parse_wav`] states.
pub proof fn lemma_wav_round_trip(s: Seq<i16>, channels: u16, rate: u32)
    requires
        encodable(s.len() as int, channels, rate),
    ensures
        parse_wav(wav_bytes(s, channels, rate)) == Some((s, channels, rate)),
{
    let b = wav_bytes(s, channels, rate);
    lemma_pcm_data_len(s);
    assert(b.len() == 44 + 2 * s.len());
    lemma_u16_round_trip(channels);
    lemma_u32_round_trip(rate);
    lemma_u16_cast_value(2 * channels);
    lemma_u16_round_trip((2 * channels) as u16);
    lemma_u32_cast_value(2 * channels * rate);
    lemma_u32_round_trip((2 * channels * rate) as u32);
    lemma_u32_cast_value(2 * s.len() as int);
    lemma_u32_round_trip((2 * s.len()) as u32);
    lemma_u32_cast_value(36 + 2 * s.len() as int);
    lemma_u32_round_trip((36 + 2 * s.len()) as u32);
    lemma_u16_round_trip(1);
    lemma_u16_round_trip(16);
    lemma_u32_round_trip(16);
    let parsed = parse_wav(b);
    assert(parsed is Some);
    let ps = parsed->Some_0.0;
    assert forall|i: int| 0 <= i < s.len() implies ps[i] == s[i] by {
        lemma_pcm_data_index(s, i);
        assert(b[44 + 2 * i] == sample_le(s[i])[0]);
        assert(b[45 + 2 * i] == sample_le(s[i])[1]);
        lemma_u16_round_trip(s[i] as u16);
        lemma_i16_round_trip(s[i]);
    }
    assert(ps =~= s);
}

} // verus!
