use squish::colourblock::decompress;
use squish::colourblock::pack_565;
use squish::colourblock::unpack_565;
use squish::colourblock::write3;
use squish::colourblock::write4;
use squish::colourblock::write_block;
use squish::colourblock::Rgb565;
use squish::pixels::Rgba4x4;

fn decode(block: &[u8; 8], is_bc1: bool) -> [[u8; 4]; 16] {
    let mut sink = Rgba4x4::new();
    decompress(&block[..], is_bc1, &mut sink);
    let mut out = [[0u8; 4]; 16];
    for y in 0..4 {
        for x in 0..4 {
            for ch in 0..4 {
                out[y * 4 + x][ch] = sink.get_value(x, y, ch);
            }
        }
    }
    out
}

fn le16(block: &[u8; 8], at: usize) -> u16 {
    u16::from_le_bytes([block[at], block[at + 1]])
}

#[test]
fn pack_565_exact_values() {
    assert_eq!(pack_565(&Rgb565 { r: 31, g: 63, b: 31 }), 0xFFFF);
    assert_eq!(pack_565(&Rgb565 { r: 0, g: 0, b: 0 }), 0);
    assert_eq!(pack_565(&Rgb565 { r: 1, g: 2, b: 3 }), 1 * 2048 + 2 * 32 + 3);
    assert_eq!(pack_565(&Rgb565 { r: 31, g: 0, b: 0 }), 0xF800);
}

#[test]
fn unpack_565_exact_values() {
    assert_eq!(unpack_565(&0xFFFFu16.to_le_bytes()), [255, 255, 255, 255]);
    assert_eq!(unpack_565(&0u16.to_le_bytes()), [0, 0, 0, 255]);
    // fields (1, 1, 1) expand by bit replication to (8, 4, 8)
    assert_eq!(unpack_565(&2081u16.to_le_bytes()), [8, 4, 8, 255]);
    // fields (16, 32, 16) expand to (132, 130, 132)
    let v: u16 = 16 * 2048 + 32 * 32 + 16;
    assert_eq!(unpack_565(&v.to_le_bytes()), [132, 130, 132, 255]);
}

#[test]
fn write_block_exact_layout() {
    let indices: [u8; 16] = [0, 1, 2, 3, 3, 2, 1, 0, 1, 1, 1, 1, 2, 2, 2, 2];
    let mut block = [0u8; 8];
    write_block(0x1234, 0xABCD, &indices, &mut block);
    assert_eq!(block, [0x34, 0x12, 0xCD, 0xAB, 228, 27, 85, 170]);
}

#[test]
fn write3_keeps_order_when_already_ordered() {
    let start = Rgb565 { r: 0, g: 0, b: 0 };
    let end = Rgb565 { r: 31, g: 0, b: 0 };
    let indices: [u8; 16] = [0, 1, 2, 0, 1, 2, 0, 1, 2, 0, 1, 2, 0, 1, 2, 0];
    let mut block = [0u8; 8];
    write3(&start, &end, &indices, &mut block);
    assert_eq!(le16(&block, 0), 0);
    assert_eq!(le16(&block, 2), 0xF800);
    // indices are stored untouched
    assert_eq!(block[4], 0 + 4 * 1 + 16 * 2 + 64 * 0);
}

#[test]
fn write3_swaps_and_relabels() {
    let start = Rgb565 { r: 31, g: 0, b: 0 };
    let end = Rgb565 { r: 0, g: 0, b: 0 };
    let indices: [u8; 16] = [0, 1, 2, 0, 0, 0, 0, 0, 0, 0, 0, 0, 0, 0, 0, 0];
    let mut block = [0u8; 8];
    write3(&start, &end, &indices, &mut block);
    // endpoints are stored swapped so that first <= second
    assert_eq!(le16(&block, 0), 0);
    assert_eq!(le16(&block, 2), 0xF800);
    // labels 0 and 1 exchanged, label 2 kept
    assert_eq!(block[4], 1 + 4 * 0 + 16 * 2 + 64 * 1);
}

#[test]
fn write3_ordering_invariant_holds_for_every_order() {
    let lo = Rgb565 { r: 3, g: 7, b: 1 };
    let hi = Rgb565 { r: 20, g: 40, b: 11 };
    let indices = [2u8; 16];
    for (s, e) in [(&lo, &hi), (&hi, &lo), (&lo, &lo)] {
        let mut block = [0u8; 8];
        write3(s, e, &indices, &mut block);
        assert!(le16(&block, 0) <= le16(&block, 2));
    }
}

#[test]
fn write4_ordering_invariant_holds_for_every_order() {
    let lo = Rgb565 { r: 3, g: 7, b: 1 };
    let hi = Rgb565 { r: 20, g: 40, b: 11 };
    let indices: [u8; 16] = [0, 1, 2, 3, 0, 1, 2, 3, 0, 1, 2, 3, 0, 1, 2, 3];
    for (s, e) in [(&lo, &hi), (&hi, &lo)] {
        let mut block = [0u8; 8];
        write4(s, e, &indices, &mut block);
        assert!(le16(&block, 0) > le16(&block, 2));
    }
    let mut block = [0u8; 8];
    write4(&lo, &lo, &indices, &mut block);
    assert_eq!(le16(&block, 0), le16(&block, 2));
    // degenerate equal-endpoint block stores all-zero indices
    assert_eq!(&block[4..], &[0, 0, 0, 0]);
}

#[test]
fn write4_swap_self_consistency() {
    let start = Rgb565 { r: 5, g: 10, b: 15 };
    let end = Rgb565 { r: 25, g: 50, b: 2 };
    let indices: [u8; 16] = [0, 1, 2, 3, 3, 2, 1, 0, 0, 0, 3, 3, 1, 2, 1, 2];
    let mut swapped_indices = [0u8; 16];
    for i in 0..16 {
        swapped_indices[i] = (indices[i] ^ 1) & 0x3;
    }

    let mut block_a = [0u8; 8];
    write4(&start, &end, &indices, &mut block_a);
    let mut block_b = [0u8; 8];
    write4(&end, &start, &swapped_indices, &mut block_b);

    // the stored blocks are bit-identical, so they decode identically
    assert_eq!(block_a, block_b);
    assert_eq!(decode(&block_a, true), decode(&block_b, true));
    assert_eq!(decode(&block_a, false), decode(&block_b, false));
}

#[test]
fn endpoint_round_trip_through_decode() {
    let start = Rgb565 { r: 7, g: 21, b: 30 };
    let end = Rgb565 { r: 19, g: 2, b: 4 };
    let start_rgba = unpack_565(&pack_565(&start).to_le_bytes());
    let end_rgba = unpack_565(&pack_565(&end).to_le_bytes());

    // write3 stores the smaller endpoint first; labels 0/1 follow the swap
    let mut block = [0u8; 8];
    let indices: [u8; 16] = [0, 1, 0, 1, 0, 1, 0, 1, 0, 1, 0, 1, 0, 1, 0, 1];
    write3(&start, &end, &indices, &mut block);
    let pixels = decode(&block, false);
    assert_eq!(pixels[0], start_rgba);
    assert_eq!(pixels[1], end_rgba);

    // write4 stores the larger endpoint first; labels 0/1 follow the swap
    let mut block4 = [0u8; 8];
    write4(&start, &end, &indices, &mut block4);
    let pixels4 = decode(&block4, true);
    assert_eq!(pixels4[0], start_rgba);
    assert_eq!(pixels4[1], end_rgba);
}

#[test]
fn unpack_565_channels_are_monotonic() {
    // blue sweep: packed values 0..=31
    let mut prev = 0u8;
    for c in 0u16..32 {
        let rgba = unpack_565(&c.to_le_bytes());
        assert!(rgba[2] >= prev);
        prev = rgba[2];
        if c == 0 {
            assert_eq!(rgba[2], 0);
        }
        if c == 31 {
            assert_eq!(rgba[2], 255);
        }
    }
    // green sweep: field values 0..=63
    let mut prev = 0u8;
    for c in 0u16..64 {
        let rgba = unpack_565(&(c * 32).to_le_bytes());
        assert!(rgba[1] >= prev);
        prev = rgba[1];
        if c == 0 {
            assert_eq!(rgba[1], 0);
        }
        if c == 63 {
            assert_eq!(rgba[1], 255);
        }
    }
    // red sweep: field values 0..=31
    let mut prev = 0u8;
    for c in 0u16..32 {
        let rgba = unpack_565(&(c * 2048).to_le_bytes());
        assert!(rgba[0] >= prev);
        prev = rgba[0];
        if c == 0 {
            assert_eq!(rgba[0], 0);
        }
        if c == 31 {
            assert_eq!(rgba[0], 255);
        }
    }
}
