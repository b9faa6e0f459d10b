use vstd::prelude::*;

verus! {

/// Length of the canonical PCM wave header.
pub const HEADER_LEN: usize = 44;

/// What opening a sound learns from its header.
#[derive(Debug, Clone, Copy, PartialEq, Eq, Structural)]
pub struct SoundInfo {
    pub sample_rate: u32,
    pub channel_count: u32,
    /// Number of sample frames (one sample per channel).
    pub frame_count: u32,
}

/// Little-endian 16-bit value at `i`.
pub open spec fn le16(b: Seq<u8>, i: int) -> nat {
    b[i] as nat + 256 * (b[i + 1] as nat)
}

/// Little-endian 32-bit value at `i`.
pub open spec fn le32(b: Seq<u8>, i: int) -> nat {
    le16(b, i) + 65536 * le16(b, i + 2)
}

/// Whether the four bytes at `i` are `c0 c1 c2 c3`.
pub open spec fn tag_at(b: Seq<u8>, i: int, c0: u8, c1: u8, c2: u8, c3: u8) -> bool {
    b[i] == c0 && b[i + 1] == c1 && b[i + 2] == c2 && b[i + 3] == c3
}

/// Whether `b` starts with a well-formed canonical PCM wave header:
/// "RIFF" .. "WAVE" "fmt " of length 16, format 1, at least one channel,
/// a non-zero rate of at most one frame per microsecond (times are kept in
/// microseconds), whole-byte samples, a consistent block size, then "data".
/// This is the only container format the library reads; compressed formats
/// are not recognised.
pub open spec fn header_ok(b: Seq<u8>) -> bool {
    &&& b.len() >= 44
    &&& tag_at(b, 0, 82, 73, 70, 70)
    &&& tag_at(b, 8, 87, 65, 86, 69)
    &&& tag_at(b, 12, 102, 109, 116, 32)
    &&& le32(b, 16) == 16
    &&& le16(b, 20) == 1
    &&& le16(b, 22) > 0
    &&& le32(b, 24) > 0
    &&& le32(b, 24) <= 1000000
    &&& le16(b, 34) > 0
    &&& le16(b, 34) % 8 == 0
    &&& le16(b, 32) == le16(b, 22) * (le16(b, 34) / 8)
    &&& tag_at(b, 36, 100, 97, 116, 97)
}

/// The sound described by the header at the start of `b`, if there is one.
pub open spec fn header_info(b: Seq<u8>) -> Option<SoundInfo> {
    if header_ok(b) {
        Some(
            SoundInfo {
                sample_rate: le32(b, 24) as u32,
                channel_count: le16(b, 22) as u32,
                frame_count: (le32(b, 40) / le16(b, 32)) as u32,
            },
        )
    } else {
        None
    }
}

fn read_le16(b: &[u8], i: usize) -> (r: u32)
    requires
        i <= 42,
        b@.len() >= 44,
    ensures
        r == le16(b@, i as int),
        r < 65536,
{
    b[i] as u32 + 256 * (b[i + 1] as u32)
}

fn read_le32(b: &[u8], i: usize) -> (r: u32)
    requires
        i <= 40,
        b@.len() >= 44,
    ensures
        r == le32(b@, i as int),
{
    read_le16(b, i) + 65536 * read_le16(b, i + 2)
}

fn has_tag(b: &[u8], i: usize, c0: u8, c1: u8, c2: u8, c3: u8) -> (r: bool)
    requires
        i <= 40,
        b@.len() >= 44,
    ensures
        r == tag_at(b@, i as int, c0, c1, c2, c3),
{
    b[i] == c0 && b[i + 1] == c1 && b[i + 2] == c2 && b[i + 3] == c3
}

/// Reads the canonical PCM wave header at the start of `b`.
pub fn parse_header(b: &[u8]) -> (r: Option<SoundInfo>)
    ensures
        r == header_info(b@),
{
    if b.len() < HEADER_LEN {
        return None;
    }
    if !has_tag(b, 0, 82, 73, 70, 70) || !has_tag(b, 8, 87, 65, 86, 69) || !has_tag(
        b,
        12,
        102,
        109,
        116,
        32,
    ) || !has_tag(b, 36, 100, 97, 116, 97) {
        return None;
    }
    let fmt_len = read_le32(b, 16);
    let format = read_le16(b, 20);
    let channels = read_le16(b, 22);
    let rate = read_le32(b, 24);
    let align = read_le16(b, 32);
    let bits = read_le16(b, 34);
    let data_len = read_le32(b, 40);
    if fmt_len != 16 || format != 1 || channels == 0 || rate == 0 || rate > 1000000 || bits == 0 || bits % 8 != 0 {
        return None;
    }
    let width = bits / 8;
    assert((channels as nat) * (width as nat) < 65536 * 65536) by (nonlinear_arith)
        requires
            channels < 65536,
            width < 65536,
    ;
    if align as u64 != channels as u64 * width as u64 {
        return None;
    }
    assert(align > 0) by (nonlinear_arith)
        requires
            align == channels * width,
            channels > 0,
            width > 0,
    ;
    Some(SoundInfo { sample_rate: rate, channel_count: channels, frame_count: data_len / align })
}

} // verus!
