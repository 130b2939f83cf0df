//! The mathematical model of the block format: how 16-bit words sit in
//! little-endian bytes, how 2-bit indices pack four to a byte, and how a
//! stored block determines its palette and decoded pixels.

use vstd::prelude::*;

verus! {

/// The value of a 16-bit word stored as two little-endian bytes.
pub open spec fn le16(lo: u8, hi: u8) -> int {
    lo + 256 * hi
}

/// Low byte of a 16-bit word stored little-endian.
pub open spec fn low_byte(v: u16) -> u8 {
    (v % 256) as u8
}

/// High byte of a 16-bit word stored little-endian.
pub open spec fn high_byte(v: u16) -> u8 {
    (v / 256) as u8
}

/// A word split into little-endian bytes reads back as itself.
pub proof fn lemma_le16_bytes(v: u16)
    ensures
        le16(low_byte(v), high_byte(v)) == v,
{
}

/// Byte `i` of the index area: the four 2-bit indices of pixels `4*i` to
/// `4*i + 3`, the lowest-numbered pixel in the lowest bits.
pub open spec fn idx_byte(indices: Seq<u8>, i: int) -> u8
    recommends
        indices.len() == 16,
        0 <= i < 4,
        forall|j: int| 0 <= j < 16 ==> indices[j] <= 3,
{
    (indices[4 * i] + 4 * indices[4 * i + 1] + 16 * indices[4 * i + 2] + 64 * indices[4 * i
        + 3]) as u8
}

/// The canonical 8-byte layout: endpoint `a` little-endian in bytes 0..2,
/// endpoint `b` in bytes 2..4, the sixteen 2-bit indices in bytes 4..8.
pub open spec fn block_bytes(a: u16, b: u16, indices: Seq<u8>) -> Seq<u8>
    recommends
        indices.len() == 16,
        forall|j: int| 0 <= j < 16 ==> indices[j] <= 3,
{
    seq![
        low_byte(a),
        high_byte(a),
        low_byte(b),
        high_byte(b),
        idx_byte(indices, 0),
        idx_byte(indices, 1),
        idx_byte(indices, 2),
        idx_byte(indices, 3),
    ]
}

/// Index relabelling applied when the 3-colour encoder swaps its endpoints:
/// labels 0 and 1 exchange, every other label is kept.
pub open spec fn swap_first_two(i: u8) -> u8 {
    if i == 0 {
        1u8
    } else if i == 1 {
        0u8
    } else {
        i
    }
}

/// Index relabelling applied when the 4-colour encoder swaps its endpoints:
/// palette slots 0 and 1 exchange and so do the two interpolated slots 2 and
/// 3, which are defined symmetrically in the endpoints.
pub open spec fn swap_pairwise(i: u8) -> u8
    recommends
        i <= 3,
{
    if i == 0 {
        1u8
    } else if i == 1 {
        0u8
    } else if i == 2 {
        3u8
    } else {
        2u8
    }
}

/// The block stored by the 3-colour (punch-through-alpha) encoder for packed
/// endpoints `a`, `b`: endpoints ordered so the smaller is stored first, with
/// index labels 0 and 1 exchanged when that order had to be swapped.
pub open spec fn write3_bytes(a: u16, b: u16, indices: Seq<u8>) -> Seq<u8>
    recommends
        indices.len() == 16,
        forall|j: int| 0 <= j < 16 ==> indices[j] <= 2,
{
    if a > b {
        block_bytes(b, a, indices.map_values(|i: u8| swap_first_two(i)))
    } else {
        block_bytes(a, b, indices)
    }
}

/// The block stored by the 4-colour (opaque) encoder for packed endpoints
/// `a`, `b`: the larger endpoint is stored first with indices relabelled
/// pairwise when a swap was needed; equal endpoints degenerate to a
/// single-colour block whose indices are all written as zero.
pub open spec fn write4_bytes(a: u16, b: u16, indices: Seq<u8>) -> Seq<u8>
    recommends
        indices.len() == 16,
        forall|j: int| 0 <= j < 16 ==> indices[j] <= 3,
{
    if a < b {
        block_bytes(b, a, indices.map_values(|i: u8| swap_pairwise(i)))
    } else if b < a {
        block_bytes(a, b, indices)
    } else {
        block_bytes(a, b, Seq::new(16, |j: int| 0u8))
    }
}

/// Expand a 5-bit channel field to 8 bits by bit replication:
/// `(c << 3) | (c >> 2)`, which is monotonic and maps 0 to 0 and 31 to 255.
pub open spec fn expand5(c: int) -> int
    recommends
        0 <= c < 32,
{
    8 * c + c / 4
}

/// Expand a 6-bit channel field to 8 bits by bit replication:
/// `(c << 2) | (c >> 4)`, which is monotonic and maps 0 to 0 and 63 to 255.
pub open spec fn expand6(c: int) -> int
    recommends
        0 <= c < 64,
{
    4 * c + c / 16
}

/// The red field (top 5 bits) of a packed 5:6:5 word.
pub open spec fn field_r(v: int) -> int {
    v / 2048 % 32
}

/// The green field (middle 6 bits) of a packed 5:6:5 word.
pub open spec fn field_g(v: int) -> int {
    v / 32 % 64
}

/// The blue field (low 5 bits) of a packed 5:6:5 word.
pub open spec fn field_b(v: int) -> int {
    v % 32
}

/// The RGBA quad a packed 5:6:5 word unpacks to: each field expanded to
/// 8 bits by bit replication, alpha forced fully opaque.
pub open spec fn unpack565_spec(v: int) -> Seq<u8>
    recommends
        0 <= v < 0x10000,
{
    seq![
        expand5(field_r(v)) as u8,
        expand6(field_g(v)) as u8,
        expand5(field_b(v)) as u8,
        255u8,
    ]
}

/// Per-channel average of two RGBA quads, with truncating division.
pub open spec fn blend_half(c: Seq<u8>, d: Seq<u8>) -> Seq<u8>
    recommends
        c.len() == 4,
        d.len() == 4,
{
    Seq::new(4, |i: int| ((c[i] + d[i]) / 2) as u8)
}

/// Per-channel 2:1 mix of two RGBA quads, with truncating division.
pub open spec fn blend_third(c: Seq<u8>, d: Seq<u8>) -> Seq<u8>
    recommends
        c.len() == 4,
        d.len() == 4,
{
    Seq::new(4, |i: int| ((2 * c[i] + d[i]) / 3) as u8)
}

/// The palette a decoder derives from the packed endpoints `a` and `b`.
/// Slots 0 and 1 are the unpacked endpoints.  A BC1 block with `a <= b` is
/// in 3-colour mode: slot 2 is the average and slot 3 fully transparent
/// black.  Every other block is opaque: slots 2 and 3 are the two 2:1 mixes.
pub open spec fn palette_of(a: int, b: int, is_bc1: bool) -> Seq<Seq<u8>>
    recommends
        0 <= a < 0x10000,
        0 <= b < 0x10000,
{
    let c0 = unpack565_spec(a);
    let c1 = unpack565_spec(b);
    if is_bc1 && a <= b {
        seq![c0, c1, blend_half(c0, c1), seq![0u8, 0u8, 0u8, 0u8]]
    } else {
        seq![c0, c1, blend_third(c0, c1), blend_third(c1, c0)]
    }
}

/// The 2-bit palette index of pixel `p` (row-major, `p = y*4 + x`) stored in
/// a block: two bits of byte `4 + p/4`, the lowest-numbered pixel of each
/// group of four in the lowest bits.
pub open spec fn index_at(bytes: Seq<u8>, p: int) -> int
    recommends
        bytes.len() == 8,
        0 <= p < 16,
{
    let byte = bytes[4 + p / 4] as int;
    if p % 4 == 0 {
        byte % 4
    } else if p % 4 == 1 {
        byte / 4 % 4
    } else if p % 4 == 2 {
        byte / 16 % 4
    } else {
        byte / 64 % 4
    }
}

/// Channel `ch` of pixel `p` after decoding a stored block: the pixel's
/// index selects a palette slot re-derived from the stored endpoints.
pub open spec fn decoded_pixel(bytes: Seq<u8>, is_bc1: bool, p: int, ch: int) -> u8
    recommends
        bytes.len() == 8,
        0 <= p < 16,
        0 <= ch < 4,
{
    palette_of(le16(bytes[0], bytes[1]), le16(bytes[2], bytes[3]), is_bc1)[index_at(bytes, p)][ch]
}

} // verus!
