//! Format-level guarantees proved once over the model: how decoding
//! recovers encoded endpoints, that encoding either endpoint order stores
//! the same opaque block, and that channel expansion is monotonic.

use vstd::arithmetic::div_mod::lemma_div_is_ordered;
use vstd::prelude::*;

use crate::colourblock::Rgb565;
use crate::model::block_bytes;
use crate::model::decoded_pixel;
use crate::model::expand5;
use crate::model::expand6;
use crate::model::field_b;
use crate::model::field_g;
use crate::model::field_r;
use crate::model::le16;
use crate::model::lemma_le16_bytes;
use crate::model::palette_of;
use crate::model::swap_pairwise;
use crate::model::unpack565_spec;
use crate::model::write3_bytes;
use crate::model::write4_bytes;

verus! {

/// Round-trip of endpoints through the 3-colour encoder: a decoder's
/// palette slots 0 and 1 are the unpacked encoded endpoints, in the
/// original or the swapped role as the ordering invariant demands.
pub proof fn lemma_write3_endpoint_round_trip(
    start: Rgb565,
    end: Rgb565,
    indices: Seq<u8>,
    is_bc1: bool,
)
    requires
        start.wf(),
        end.wf(),
        indices.len() == 16,
        forall|j: int| 0 <= j < 16 ==> indices[j] <= 2,
    ensures
        ({
            let blk = write3_bytes(start.packed(), end.packed(), indices);
            let pal = palette_of(le16(blk[0], blk[1]), le16(blk[2], blk[3]), is_bc1);
            &&& pal[0] == unpack565_spec(
                if start.packed() <= end.packed() {
                    start.packed() as int
                } else {
                    end.packed() as int
                },
            )
            &&& pal[1] == unpack565_spec(
                if start.packed() <= end.packed() {
                    end.packed() as int
                } else {
                    start.packed() as int
                },
            )
        }),
{
    lemma_le16_bytes(start.packed());
    lemma_le16_bytes(end.packed());
}

/// Round-trip of endpoints through the 4-colour encoder: a decoder's
/// palette slots 0 and 1 are the unpacked encoded endpoints, the larger
/// packed value always in slot 0.
pub proof fn lemma_write4_endpoint_round_trip(
    start: Rgb565,
    end: Rgb565,
    indices: Seq<u8>,
    is_bc1: bool,
)
    requires
        start.wf(),
        end.wf(),
        indices.len() == 16,
        forall|j: int| 0 <= j < 16 ==> indices[j] <= 3,
    ensures
        ({
            let blk = write4_bytes(start.packed(), end.packed(), indices);
            let pal = palette_of(le16(blk[0], blk[1]), le16(blk[2], blk[3]), is_bc1);
            &&& pal[0] == unpack565_spec(
                if start.packed() >= end.packed() {
                    start.packed() as int
                } else {
                    end.packed() as int
                },
            )
            &&& pal[1] == unpack565_spec(
                if start.packed() >= end.packed() {
                    end.packed() as int
                } else {
                    start.packed() as int
                },
            )
        }),
{
    lemma_le16_bytes(start.packed());
    lemma_le16_bytes(end.packed());
}

/// Swap self-consistency of the 4-colour encoder: encoding with the
/// endpoints exchanged and every index relabelled pairwise (0 with 1, 2
/// with 3) stores the very same block, so the two decode pixel-for-pixel
/// identically.
pub proof fn lemma_write4_swap(a: u16, b: u16, indices: Seq<u8>, is_bc1: bool)
    requires
        indices.len() == 16,
        forall|j: int| 0 <= j < 16 ==> indices[j] <= 3,
    ensures
        write4_bytes(b, a, indices.map_values(|i: u8| swap_pairwise(i))) == write4_bytes(
            a,
            b,
            indices,
        ),
        forall|p: int, ch: int|
            0 <= p < 16 && 0 <= ch < 4 ==> decoded_pixel(
                write4_bytes(b, a, indices.map_values(|i: u8| swap_pairwise(i))),
                is_bc1,
                p,
                ch,
            ) == decoded_pixel(write4_bytes(a, b, indices), is_bc1, p, ch),
{
    let swapped = indices.map_values(|i: u8| swap_pairwise(i));
    if a < b {
        assert(write4_bytes(b, a, swapped) =~= block_bytes(b, a, swapped));
        assert(write4_bytes(a, b, indices) =~= block_bytes(b, a, swapped));
    } else if b < a {
        assert(swapped.map_values(|i: u8| swap_pairwise(i)) =~= indices);
        assert(write4_bytes(b, a, swapped) =~= block_bytes(a, b, indices));
    } else {
        assert(write4_bytes(b, a, swapped) =~= write4_bytes(a, b, indices));
    }
}

/// Channel monotonicity: a packed word whose 5-bit and 6-bit fields are all
/// at least as large as another's unpacks to channel values at least as
/// large, channel by channel.
pub proof fn lemma_unpack565_monotone(v1: int, v2: int)
    requires
        0 <= v1 < 0x10000,
        0 <= v2 < 0x10000,
        field_r(v1) <= field_r(v2),
        field_g(v1) <= field_g(v2),
        field_b(v1) <= field_b(v2),
    ensures
        forall|ch: int|
            0 <= ch < 4 ==> #[trigger] unpack565_spec(v1)[ch] <= unpack565_spec(v2)[ch],
{
    lemma_expand5_monotone(field_r(v1), field_r(v2));
    lemma_expand6_monotone(field_g(v1), field_g(v2));
    lemma_expand5_monotone(field_b(v1), field_b(v2));
}

/// Channel extremes: the all-zero word unpacks to black and the all-ones
/// word to white, both fully opaque, so each field maps its minimum to 0
/// and its maximum to 255.
pub proof fn lemma_unpack565_extremes()
    ensures
        unpack565_spec(0) == seq![0u8, 0u8, 0u8, 255u8],
        unpack565_spec(0xFFFF) == seq![255u8, 255u8, 255u8, 255u8],
{
    assert(unpack565_spec(0) =~= seq![0u8, 0u8, 0u8, 255u8]);
    assert(unpack565_spec(0xFFFF) =~= seq![255u8, 255u8, 255u8, 255u8]);
}

/// Expanding a 5-bit field to 8 bits is monotonic and stays within a byte.
pub proof fn lemma_expand5_monotone(c1: int, c2: int)
    requires
        0 <= c1 <= c2 <= 31,
    ensures
        expand5(c1) <= expand5(c2),
        0 <= expand5(c1),
        expand5(c2) <= 255,
        expand5(0) == 0,
        expand5(31) == 255,
{
    lemma_div_is_ordered(c1, c2, 4);
}

/// Expanding a 6-bit field to 8 bits is monotonic and stays within a byte.
pub proof fn lemma_expand6_monotone(c1: int, c2: int)
    requires
        0 <= c1 <= c2 <= 63,
    ensures
        expand6(c1) <= expand6(c2),
        0 <= expand6(c1),
        expand6(c2) <= 255,
        expand6(0) == 0,
        expand6(63) == 255,
{
    lemma_div_is_ordered(c1, c2, 16);
}

} // verus!
