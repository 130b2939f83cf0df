//! Executable encoders and decoder for the 8-byte colour block.

use vstd::prelude::*;

use crate::model::block_bytes;
use crate::model::decoded_pixel;
use crate::model::idx_byte;
use crate::model::index_at;
use crate::model::le16;
use crate::model::lemma_le16_bytes;
use crate::model::palette_of;
use crate::model::swap_first_two;
use crate::model::swap_pairwise;
use crate::model::unpack565_spec;
use crate::model::write3_bytes;
use crate::model::write4_bytes;

verus! {

/// A colour endpoint already quantised to the 5:6:5 channel bit widths:
/// red and blue in 0..=31, green in 0..=63.  Scaling a normalised floating
/// point colour down to these ranges is the caller's concern.
pub struct Rgb565 {
    pub r: u8,
    pub g: u8,
    pub b: u8,
}

impl Rgb565 {
    /// Each channel fits its field: 5 bits for red and blue, 6 for green.
    pub open spec fn wf(&self) -> bool {
        self.r <= 31 && self.g <= 63 && self.b <= 31
    }

    /// The packed 16-bit form, bit layout `RRRRR GGGGGG BBBBB`.
    pub open spec fn packed(&self) -> u16
        recommends
            self.wf(),
    {
        (self.r * 2048 + self.g * 32 + self.b) as u16
    }
}

/// Convert a quantised colour endpoint to its packed little-endian u16 form.
pub fn pack_565(colour: &Rgb565) -> (v: u16)
    requires
        colour.wf(),
    ensures
        v == colour.packed(),
{
    let r = colour.r as u16;
    let g = colour.g as u16;
    let b = colour.b as u16;
    proof {
        assert((r << 11) | (g << 5) | b == r * 2048 + g * 32 + b) by (bit_vector)
            requires
                r <= 31,
                g <= 63,
                b <= 31,
        ;
    }
    (r << 11) | (g << 5) | b
}

/// Pack four 2-bit indices into one byte, the first in the lowest bits.
fn pack_index_byte(i0: u8, i1: u8, i2: u8, i3: u8) -> (byte: u8)
    requires
        i0 <= 3,
        i1 <= 3,
        i2 <= 3,
        i3 <= 3,
    ensures
        byte == (i0 + 4 * i1 + 16 * i2 + 64 * i3) as u8,
{
    proof {
        assert(((i3 & 3) << 6) | ((i2 & 3) << 4) | ((i1 & 3) << 2) | (i0 & 3) == (i0 + 4 * i1 + 16
            * i2 + 64 * i3) as u8) by (bit_vector)
            requires
                i0 <= 3,
                i1 <= 3,
                i2 <= 3,
                i3 <= 3,
        ;
    }
    ((i3 & 3) << 6) | ((i2 & 3) << 4) | ((i1 & 3) << 2) | (i0 & 3)
}

/// Write two already-ordered packed endpoints and sixteen 2-bit indices into
/// the canonical 8-byte layout.  No ordering policy is applied here: that
/// belongs to `write3` and `write4`.
pub fn write_block(a: u16, b: u16, indices: &[u8; 16], block: &mut [u8; 8])
    requires
        forall|j: int| 0 <= j < 16 ==> indices@[j] <= 3,
    ensures
        final(block)@ == block_bytes(a, b, indices@),
{
    proof {
        assert((a & 0xff) as u8 == (a % 256) as u8 && (a >> 8) as u8 == (a / 256) as u8)
            by (bit_vector);
        assert((b & 0xff) as u8 == (b % 256) as u8 && (b >> 8) as u8 == (b / 256) as u8)
            by (bit_vector);
    }
    block[0] = (a & 0xff) as u8;
    block[1] = (a >> 8) as u8;
    block[2] = (b & 0xff) as u8;
    block[3] = (b >> 8) as u8;
    let mut i: usize = 0;
    while i < 4
        invariant
            forall|j: int| 0 <= j < 16 ==> indices@[j] <= 3,
            block@.len() == 8,
            block@[0] == (a % 256) as u8,
            block@[1] == (a / 256) as u8,
            block@[2] == (b % 256) as u8,
            block@[3] == (b / 256) as u8,
            forall|j: int| 0 <= j < i ==> block@[4 + j] == idx_byte(indices@, j),
            i <= 4,
        decreases 4 - i,
    {
        let byte = pack_index_byte(
            indices[4 * i],
            indices[4 * i + 1],
            indices[4 * i + 2],
            indices[4 * i + 3],
        );
        block[4 + i] = byte;
        i = i + 1;
    }
    assert(block@ =~= block_bytes(a, b, indices@));
}

/// Encode a 3-colour (punch-through-alpha capable) block.  The stored
/// endpoints always satisfy `first <= second`, the order a decoder reads as
/// enabling the alpha palette; when the packed inputs arrive in the opposite
/// order they are swapped and the index labels 0 and 1 are exchanged.
pub fn write3(start: &Rgb565, end: &Rgb565, indices: &[u8; 16], block: &mut [u8; 8])
    requires
        start.wf(),
        end.wf(),
        forall|j: int| 0 <= j < 16 ==> indices@[j] <= 2,
    ensures
        final(block)@ == write3_bytes(start.packed(), end.packed(), indices@),
        le16(final(block)@[0], final(block)@[1]) <= le16(final(block)@[2], final(block)@[3]),
{
    let mut a = pack_565(start);
    let mut b = pack_565(end);
    let mut remapped: [u8; 16] = *indices;

    if a > b {
        let t = a;
        a = b;
        b = t;
        let mut j: usize = 0;
        while j < 16
            invariant
                j <= 16,
                forall|k: int| 0 <= k < j ==> remapped@[k] == swap_first_two(indices@[k]),
                forall|k: int| j <= k < 16 ==> remapped@[k] == indices@[k],
            decreases 16 - j,
        {
            remapped[j] = if remapped[j] == 0 {
                1
            } else if remapped[j] == 1 {
                0
            } else {
                remapped[j]
            };
            j = j + 1;
        }
        assert(remapped@ =~= indices@.map_values(|i: u8| swap_first_two(i)));
    }

    write_block(a, b, &remapped, block);
    proof {
        lemma_le16_bytes(a);
        lemma_le16_bytes(b);
    }
}

/// Encode a 4-colour (opaque) block.  The stored endpoints always satisfy
/// `first > second` unless the packed inputs are equal; a swap relabels every
/// index pairwise (0 with 1, 2 with 3), and equal endpoints make every
/// palette slot decode alike, so the indices are then all written as zero.
pub fn write4(start: &Rgb565, end: &Rgb565, indices: &[u8; 16], block: &mut [u8; 8])
    requires
        start.wf(),
        end.wf(),
        forall|j: int| 0 <= j < 16 ==> indices@[j] <= 3,
    ensures
        final(block)@ == write4_bytes(start.packed(), end.packed(), indices@),
        start.packed() != end.packed() ==> le16(final(block)@[0], final(block)@[1]) > le16(
            final(block)@[2],
            final(block)@[3],
        ),
        start.packed() == end.packed() ==> le16(final(block)@[0], final(block)@[1]) == le16(
            final(block)@[2],
            final(block)@[3],
        ),
{
    let mut a = pack_565(start);
    let mut b = pack_565(end);
    let mut remapped: [u8; 16] = [0; 16];

    if a < b {
        let t = a;
        a = b;
        b = t;
        let mut j: usize = 0;
        while j < 16
            invariant
                j <= 16,
                forall|k: int| 0 <= k < 16 ==> indices@[k] <= 3,
                forall|k: int| 0 <= k < j ==> remapped@[k] == swap_pairwise(indices@[k]),
            decreases 16 - j,
        {
            let x = indices[j];
            proof {
                assert((x ^ 0x01) & 0x03 == swap_pairwise(x)) by (bit_vector)
                    requires
                        x <= 3,
                ;
            }
            remapped[j] = (x ^ 0x01) & 0x03;
            j = j + 1;
        }
        assert(remapped@ =~= indices@.map_values(|i: u8| swap_pairwise(i)));
    } else if a > b {
        remapped = *indices;
    } else {
        // equal endpoints: every slot decodes identically, keep the zeros
        assert(remapped@ =~= Seq::new(16, |j: int| 0u8));
    }

    write_block(a, b, &remapped, block);
    proof {
        lemma_le16_bytes(a);
        lemma_le16_bytes(b);
    }
}

/// Expand a packed 5:6:5 word to an RGBA quad, each field widened to 8 bits
/// by bit replication and alpha forced fully opaque.
fn unpack_565_word(v: u16) -> (rgba: [u8; 4])
    ensures
        rgba@ == unpack565_spec(v as int),
{
    let r5 = ((v >> 11) & 0x1F) as u8;
    let g6 = ((v >> 5) & 0x3F) as u8;
    let b5 = (v & 0x1F) as u8;
    proof {
        assert(((v >> 11) & 0x1F) as u8 == v / 2048 % 32 && ((v >> 11) & 0x1F) as u8 <= 31)
            by (bit_vector);
        assert(((v >> 5) & 0x3F) as u8 == v / 32 % 64 && ((v >> 5) & 0x3F) as u8 <= 63)
            by (bit_vector);
        assert((v & 0x1F) as u8 == v % 32 && (v & 0x1F) as u8 <= 31) by (bit_vector);
    }

    let r = (r5 << 3) | (r5 >> 2);
    let g = (g6 << 2) | (g6 >> 4);
    let b = (b5 << 3) | (b5 >> 2);
    proof {
        assert((r5 << 3) | (r5 >> 2) == 8 * r5 + r5 / 4) by (bit_vector)
            requires
                r5 <= 31,
        ;
        assert((g6 << 2) | (g6 >> 4) == 4 * g6 + g6 / 16) by (bit_vector)
            requires
                g6 <= 63,
        ;
        assert((b5 << 3) | (b5 >> 2) == 8 * b5 + b5 / 4) by (bit_vector)
            requires
                b5 <= 31,
        ;
    }

    let rgba = [r, g, b, 255u8];
    assert(rgba@ =~= unpack565_spec(v as int));
    rgba
}

/// Read a little-endian 565-packed colour from two bytes and expand it to an
/// 8-bit-per-channel RGBA quad, alpha fully opaque.
pub fn unpack_565(packed: &[u8]) -> (rgba: [u8; 4])
    requires
        packed@.len() == 2,
    ensures
        rgba@ == unpack565_spec(le16(packed@[0], packed@[1])),
{
    let lo = packed[0];
    let hi = packed[1];
    proof {
        assert((lo as u16) | ((hi as u16) << 8) == lo + 256 * hi) by (bit_vector);
    }
    unpack_565_word((lo as u16) | ((hi as u16) << 8))
}

/// A caller-owned 4x4 pixel write target.  Implementations adapt whatever
/// framebuffer layout the caller uses; the decoder only needs a per-pixel,
/// per-channel store and at least four channels to take RGBA values.
pub trait RawColor4x4Block {
    /// How many channels each pixel holds.
    spec fn channel_count(&self) -> nat;

    /// Channel `ch` of the pixel at `(x, y)`.
    spec fn pixel(&self, x: int, y: int, ch: int) -> u8;

    /// Report the channel count.
    fn number_of_channels(&self) -> (n: usize)
        ensures
            n == self.channel_count(),
    ;

    /// Store one channel value, leaving every other pixel and channel alone.
    fn set_value(&mut self, x: usize, y: usize, channel: usize, value: u8)
        requires
            x < 4,
            y < 4,
            channel < old(self).channel_count(),
        ensures
            final(self).channel_count() == old(self).channel_count(),
            final(self).pixel(x as int, y as int, channel as int) == value,
            forall|xx: int, yy: int, cc: int|
                !(xx == x && yy == y && cc == channel) ==> final(self).pixel(xx, yy, cc) == old(
                    self,
                ).pixel(xx, yy, cc),
    ;
}

/// Decompress a BC1/BC2/BC3 colour block to 4x4 RGBA pixels.  The palette is
/// re-derived from the stored endpoints: a BC1 block whose first endpoint is
/// not the larger decodes in 3-colour punch-through-alpha mode, every other
/// block with the full opaque 4-colour palette.
pub fn decompress<S: RawColor4x4Block>(bytes: &[u8], is_bc1: bool, output: &mut S)
    requires
        bytes@.len() == 8,
        old(output).channel_count() >= 4,
    ensures
        final(output).channel_count() == old(output).channel_count(),
        forall|x: int, y: int, ch: int|
            0 <= x < 4 && 0 <= y < 4 && 0 <= ch < 4 ==> final(output).pixel(x, y, ch)
                == decoded_pixel(bytes@, is_bc1, y * 4 + x, ch),
        forall|x: int, y: int, ch: int|
            !(0 <= x < 4 && 0 <= y < 4 && 0 <= ch < 4) ==> final(output).pixel(x, y, ch) == old(
                output,
            ).pixel(x, y, ch),
{
    // unpack endpoints
    let a = (bytes[0] as u16) | ((bytes[1] as u16) << 8);
    let b = (bytes[2] as u16) | ((bytes[3] as u16) << 8);
    proof {
        let lo0 = bytes@[0];
        let hi0 = bytes@[1];
        let lo1 = bytes@[2];
        let hi1 = bytes@[3];
        assert((lo0 as u16) | ((hi0 as u16) << 8) == lo0 + 256 * hi0) by (bit_vector);
        assert((lo1 as u16) | ((hi1 as u16) << 8) == lo1 + 256 * hi1) by (bit_vector);
    }
    let ca = unpack_565_word(a);
    let cb = unpack_565_word(b);

    let ghost pal = palette_of(a as int, b as int, is_bc1);

    // palette slots 0 and 1 are the unpacked endpoints
    let mut codes: [u8; 16] = [0; 16];
    let mut i: usize = 0;
    while i < 4
        invariant
            i <= 4,
            ca@ == unpack565_spec(a as int),
            cb@ == unpack565_spec(b as int),
            forall|c: int| 0 <= c < i ==> codes@[c] == ca@[c],
            forall|c: int| 0 <= c < i ==> codes@[4 + c] == cb@[c],
        decreases 4 - i,
    {
        codes[i] = ca[i];
        codes[4 + i] = cb[i];
        i = i + 1;
    }

    // derive the two intermediate palette slots
    let alpha_mode = is_bc1 && a <= b;
    let mut i: usize = 0;
    while i < 4
        invariant
            i <= 4,
            pal == palette_of(a as int, b as int, is_bc1),
            alpha_mode == (is_bc1 && a <= b),
            forall|c: int| 0 <= c < 4 ==> codes@[c] == pal[0][c],
            forall|c: int| 0 <= c < 4 ==> codes@[4 + c] == pal[1][c],
            forall|c: int| 0 <= c < i ==> codes@[8 + c] == pal[2][c],
            forall|c: int|
                0 <= c < i ==> #[trigger] codes@[12 + c] == (if alpha_mode {
                    0u8
                } else {
                    pal[3][c]
                }),
        decreases 4 - i,
    {
        let c = codes[i] as u32;
        let d = codes[4 + i] as u32;

        if alpha_mode {
            codes[8 + i] = ((c + d) / 2) as u8;
            codes[12 + i] = 0;
        } else {
            codes[8 + i] = ((2 * c + d) / 3) as u8;
            codes[12 + i] = ((c + 2 * d) / 3) as u8;
        }
        i = i + 1;
    }

    // fill in alpha for the intermediate slots
    codes[8 + 3] = 255;
    codes[12 + 3] = if alpha_mode {
        0
    } else {
        255
    };
    assert(forall|s: int, c: int|
        0 <= s < 4 && 0 <= c < 4 ==> codes@[4 * s + c] == pal[s][c]);

    // unpack the sixteen 2-bit palette indices
    let mut indices: [u8; 16] = [0; 16];
    let mut i: usize = 0;
    while i < 4
        invariant
            i <= 4,
            bytes@.len() == 8,
            forall|p: int|
                0 <= p < 4 * i ==> indices@[p] as int == index_at(bytes@, p) && indices@[p] <= 3,
        decreases 4 - i,
    {
        let packed = bytes[4 + i];
        proof {
            let pb = bytes@[4 + i];
            assert((pb & 0x03) == pb % 4 && ((pb >> 2) & 0x03) == pb / 4 % 4 && ((pb >> 4) & 0x03)
                == pb / 16 % 4 && ((pb >> 6) & 0x03) == pb / 64 % 4 && pb % 4 <= 3 && pb / 4 % 4
                <= 3 && pb / 16 % 4 <= 3 && pb / 64 % 4 <= 3) by (bit_vector);
        }
        indices[4 * i] = packed & 0x03;
        indices[4 * i + 1] = (packed >> 2) & 0x03;
        indices[4 * i + 2] = (packed >> 4) & 0x03;
        indices[4 * i + 3] = (packed >> 6) & 0x03;
        i = i + 1;
    }

    // resolve every pixel and hand it to the caller's sink
    let mut p: usize = 0;
    while p < 16
        invariant
            p <= 16,
            bytes@.len() == 8,
            pal == palette_of(le16(bytes@[0], bytes@[1]), le16(bytes@[2], bytes@[3]), is_bc1),
            forall|s: int, c: int| 0 <= s < 4 && 0 <= c < 4 ==> codes@[4 * s + c] == pal[s][c],
            forall|q: int|
                0 <= q < 16 ==> indices@[q] as int == index_at(bytes@, q) && indices@[q] <= 3,
            output.channel_count() == old(output).channel_count(),
            old(output).channel_count() >= 4,
            forall|q: int, cc: int|
                0 <= q < p && 0 <= cc < 4 ==> output.pixel(q % 4, q / 4, cc) == decoded_pixel(
                    bytes@,
                    is_bc1,
                    q,
                    cc,
                ),
            forall|xx: int, yy: int, cc: int|
                !(0 <= xx < 4 && 0 <= yy < 4 && 0 <= cc < 4 && yy * 4 + xx < p) ==> output.pixel(
                    xx,
                    yy,
                    cc,
                ) == old(output).pixel(xx, yy, cc),
        decreases 16 - p,
    {
        let x = p % 4;
        let y = p / 4;
        let idx = indices[p] as usize;
        let mut ch: usize = 0;
        while ch < 4
            invariant
                ch <= 4,
                p < 16,
                x == p % 4,
                y == p / 4,
                idx == index_at(bytes@, p as int),
                bytes@.len() == 8,
                pal == palette_of(le16(bytes@[0], bytes@[1]), le16(bytes@[2], bytes@[3]), is_bc1),
                forall|s: int, c: int| 0 <= s < 4 && 0 <= c < 4 ==> codes@[4 * s + c] == pal[s][c],
                output.channel_count() == old(output).channel_count(),
                old(output).channel_count() >= 4,
                forall|q: int, cc: int|
                    0 <= q < p && 0 <= cc < 4 ==> output.pixel(q % 4, q / 4, cc) == decoded_pixel(
                        bytes@,
                        is_bc1,
                        q,
                        cc,
                    ),
                forall|cc: int|
                    0 <= cc < ch ==> output.pixel(p as int % 4, p as int / 4, cc) == decoded_pixel(
                        bytes@,
                        is_bc1,
                        p as int,
                        cc,
                    ),
                forall|xx: int, yy: int, cc: int|
                    !(0 <= xx < 4 && 0 <= yy < 4 && 0 <= cc < 4 && (yy * 4 + xx < p || (yy * 4 + xx
                        == p && cc < ch))) ==> output.pixel(xx, yy, cc) == old(output).pixel(
                        xx,
                        yy,
                        cc,
                    ),
            decreases 4 - ch,
        {
            output.set_value(x, y, ch, codes[4 * idx + ch]);
            ch = ch + 1;
        }
        p = p + 1;
    }
}

} // verus!
