//! The 44-byte header of a mono, 16-bit PCM WAV file.
use vstd::prelude::*;

verus! {

/// The two bytes of `x`, least significant first.
pub open spec fn le16(x: u16) -> Seq<u8> {
    seq![(x % 0x100) as u8, (x / 0x100) as u8]
}

/// The four bytes of `x`, least significant first.
pub open spec fn le32(x: u32) -> Seq<u8> {
    seq![
        (x % 0x100) as u8,
        ((x / 0x100) % 0x100) as u8,
        ((x / 0x1_0000) % 0x100) as u8,
        (x / 0x100_0000) as u8,
    ]
}

/// The header of a mono 16-bit PCM WAV file: the `RIFF` chunk whose size
/// field holds `riff_size`, the 16-byte `fmt ` chunk (PCM, one channel,
/// `sample_rate` samples a second, `byte_rate` bytes a second, 2-byte
/// frames of 16 bits), and the head of the `data` chunk whose size field
/// holds `data_size`.
pub open spec fn spec_header(sample_rate: u32, byte_rate: u32, riff_size: u32, data_size: u32) -> Seq<u8> {
    seq![0x52u8, 0x49u8, 0x46u8, 0x46u8]  // "RIFF"
    + le32(riff_size)
    + seq![0x57u8, 0x41u8, 0x56u8, 0x45u8]  // "WAVE"
    + seq![0x66u8, 0x6Du8, 0x74u8, 0x20u8]  // "fmt "
    + le32(16)
    + le16(1)
    + le16(1)
    + le32(sample_rate)
    + le32(byte_rate)
    + le16(2)
    + le16(16)
    + seq![0x64u8, 0x61u8, 0x74u8, 0x61u8]  // "data"
    + le32(data_size)
}

fn push_le16(out: &mut Vec<u8>, x: u16)
    ensures
        final(out)@ == old(out)@ + le16(x),
{
    out.push((x % 0x100) as u8);
    out.push((x / 0x100) as u8);
}

fn push_le32(out: &mut Vec<u8>, x: u32)
    ensures
        final(out)@ == old(out)@ + le32(x),
{
    out.push((x % 0x100) as u8);
    out.push(((x / 0x100) % 0x100) as u8);
    out.push(((x / 0x1_0000) % 0x100) as u8);
    out.push((x / 0x100_0000) as u8);
}

fn push_tag(out: &mut Vec<u8>, a: u8, b: u8, c: u8, d: u8)
    ensures
        final(out)@ == old(out)@ + seq![a, b, c, d],
{
    out.push(a);
    out.push(b);
    out.push(c);
    out.push(d);
}

fn header(sample_rate: u32, byte_rate: u32, riff_size: u32, data_size: u32) -> (h: Vec<u8>)
    ensures
        h@ == spec_header(sample_rate, byte_rate, riff_size, data_size),
        h@.len() == 44,
{
    let mut h: Vec<u8> = Vec::new();
    push_tag(&mut h, 0x52, 0x49, 0x46, 0x46);  // "RIFF"
    push_le32(&mut h, riff_size);
    push_tag(&mut h, 0x57, 0x41, 0x56, 0x45);  // "WAVE"
    push_tag(&mut h, 0x66, 0x6D, 0x74, 0x20);  // "fmt "
    push_le32(&mut h, 16);
    push_le16(&mut h, 1);
    push_le16(&mut h, 1);
    push_le32(&mut h, sample_rate);
    push_le32(&mut h, byte_rate);
    push_le16(&mut h, 2);
    push_le16(&mut h, 16);
    push_tag(&mut h, 0x64, 0x61, 0x74, 0x61);  // "data"
    push_le32(&mut h, data_size);
    h
}

/// The header of a finished WAV file whose sample data take `data_len`
/// bytes: the `RIFF` size field holds the length of the whole file (44 +
/// `data_len`, kept to 32 bits) and the `data` size field that length less
/// the 44 bytes of the header.
pub fn wav_file_header(sample_rate: u32, data_len: u64) -> (h: Vec<u8>)
    requires
        sample_rate * 2 <= u32::MAX,
        data_len <= u64::MAX - 44,
        (44 + data_len) % 0x1_0000_0000 >= 44,
    ensures
        h@ == spec_header(
            sample_rate,
            (sample_rate * 2) as u32,
            ((44 + data_len) % 0x1_0000_0000) as u32,
            ((44 + data_len) % 0x1_0000_0000 - 44) as u32,
        ),
{
    let end_pos: u32 = ((44 + data_len) % 0x1_0000_0000) as u32;
    header(sample_rate, sample_rate * 2, end_pos, end_pos - 44)
}

/// The header for a WAV stream of unknown length: both size fields hold
/// `0xFFFFFFFF`, and the byte rate is twice the sample rate modulo 2^32.
pub fn wav_stream_header(sample_rate: u32) -> (h: Vec<u8>)
    ensures
        h@ == spec_header(sample_rate, ((sample_rate * 2) % 0x1_0000_0000) as u32, 0xFFFF_FFFF, 0xFFFF_FFFF),
{
    header(sample_rate, sample_rate.wrapping_mul(2), 0xFFFF_FFFF, 0xFFFF_FFFF)
}

/// The little-endian number in the four bytes of `b` from `at` on.
pub open spec fn read_le32(b: Seq<u8>, at: int) -> int {
    b[at] + b[at + 1] * 0x100 + b[at + 2] * 0x1_0000 + b[at + 3] * 0x100_0000
}

/// Reading the four bytes that `le32` writes gives the number back.
pub proof fn lemma_le32_round_trip(x: u32)
    ensures
        read_le32(le32(x), 0) == x,
{
}

/// The size fields, the sample rate and the byte rate of a header read back
/// as the values it was made with (at offsets 4, 40, 24 and 28).
pub proof fn lemma_header_fields(sample_rate: u32, byte_rate: u32, riff_size: u32, data_size: u32)
    ensures
        ({
            let h = spec_header(sample_rate, byte_rate, riff_size, data_size);
            &&& h.len() == 44
            &&& read_le32(h, 4) == riff_size
            &&& read_le32(h, 24) == sample_rate
            &&& read_le32(h, 28) == byte_rate
            &&& read_le32(h, 40) == data_size
        }),
{
    let h = spec_header(sample_rate, byte_rate, riff_size, data_size);
    lemma_le32_round_trip(riff_size);
    lemma_le32_round_trip(sample_rate);
    lemma_le32_round_trip(byte_rate);
    lemma_le32_round_trip(data_size);
    assert(h.subrange(4, 8) =~= le32(riff_size));
    assert(h.subrange(24, 28) =~= le32(sample_rate));
    assert(h.subrange(28, 32) =~= le32(byte_rate));
    assert(h.subrange(40, 44) =~= le32(data_size));
}

/// The little-endian number in the two bytes of `b` from `at` on.
pub open spec fn read_le16(b: Seq<u8>, at: int) -> int {
    b[at] + b[at + 1] * 0x100
}

/// The fixed parts of every header: the ASCII tags `RIFF` (bytes 0 to 3),
/// `WAVE` (8 to 11), `fmt ` (12 to 15) and `data` (36 to 39); a format
/// chunk of 16 bytes (at 16), format 1 = PCM (at 20), 1 channel (at 22),
/// 2-byte frames (at 32) and 16 bits a sample (at 34).
pub proof fn lemma_header_constants(sample_rate: u32, byte_rate: u32, riff_size: u32, data_size: u32)
    ensures
        ({
            let h = spec_header(sample_rate, byte_rate, riff_size, data_size);
            &&& h.subrange(0, 4) == seq![0x52u8, 0x49u8, 0x46u8, 0x46u8]  // "RIFF"
            &&& h.subrange(8, 12) == seq![0x57u8, 0x41u8, 0x56u8, 0x45u8]  // "WAVE"
            &&& h.subrange(12, 16) == seq![0x66u8, 0x6Du8, 0x74u8, 0x20u8]  // "fmt "
            &&& h.subrange(36, 40) == seq![0x64u8, 0x61u8, 0x74u8, 0x61u8]  // "data"
            &&& read_le32(h, 16) == 16
            &&& read_le16(h, 20) == 1
            &&& read_le16(h, 22) == 1
            &&& read_le16(h, 32) == 2
            &&& read_le16(h, 34) == 16
        }),
{
    let h = spec_header(sample_rate, byte_rate, riff_size, data_size);
    assert(h.subrange(0, 4) =~= seq![0x52u8, 0x49u8, 0x46u8, 0x46u8]);
    assert(h.subrange(8, 12) =~= seq![0x57u8, 0x41u8, 0x56u8, 0x45u8]);
    assert(h.subrange(12, 16) =~= seq![0x66u8, 0x6Du8, 0x74u8, 0x20u8]);
    assert(h.subrange(36, 40) =~= seq![0x64u8, 0x61u8, 0x74u8, 0x61u8]);
}

} // verus!
