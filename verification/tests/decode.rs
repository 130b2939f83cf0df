use squish::colourblock::decompress;
use squish::colourblock::write3;
use squish::colourblock::write4;
use squish::colourblock::RawColor4x4Block;
use squish::colourblock::Rgb565;
use squish::pixels::Rgba4x4;

fn decode(block: &[u8; 8], is_bc1: bool) -> [[u8; 4]; 16] {
    let mut sink = Rgba4x4::new();
    decompress(&block[..], is_bc1, &mut sink);
    let mut out = [[0u8; 4]; 16];
    for y in 0..4 {
        for x in 0..4 {
            for ch in 0..4 {
                out[y * 4 + x][ch] = sink.get_value(x, y, ch);
            }
        }
    }
    out
}

#[test]
fn solid_red_block_via_write3() {
    // start = (1, 0, 0) and end = (0, 0, 0) quantised to 5:6:5
    let start = Rgb565 { r: 31, g: 0, b: 0 };
    let end = Rgb565 { r: 0, g: 0, b: 0 };
    let indices = [0u8; 16];
    let mut block = [0u8; 8];
    write3(&start, &end, &indices, &mut block);
    for pixel in decode(&block, true) {
        assert_eq!(pixel, [255, 0, 0, 255]);
    }
}

#[test]
fn equal_endpoints_via_write4_decode_to_one_colour() {
    let black = Rgb565 { r: 0, g: 0, b: 0 };
    let indices: [u8; 16] = [3, 1, 2, 0, 1, 3, 0, 2, 2, 0, 3, 1, 0, 2, 1, 3];
    let mut block = [0u8; 8];
    write4(&black, &black, &indices, &mut block);
    for is_bc1 in [true, false] {
        for pixel in decode(&block, is_bc1) {
            assert_eq!(pixel, [0, 0, 0, 255]);
        }
    }
}

#[test]
fn interpolated_slot_is_two_thirds_mix() {
    // white and black endpoints; one pixel selects palette slot 2
    let white = Rgb565 { r: 31, g: 63, b: 31 };
    let black = Rgb565 { r: 0, g: 0, b: 0 };
    let mut indices = [0u8; 16];
    indices[5] = 2;
    let mut block = [0u8; 8];
    write4(&white, &black, &indices, &mut block);
    let pixels = decode(&block, false);
    assert_eq!(pixels[5], [170, 170, 170, 255]);

    // encoding with the endpoints exchanged and indices relabelled pairwise
    // reaches the same pixels
    let mut swapped = [1u8; 16];
    swapped[5] = 3;
    let mut block_swapped = [0u8; 8];
    write4(&black, &white, &swapped, &mut block_swapped);
    assert_eq!(decode(&block_swapped, false)[5], [170, 170, 170, 255]);
    assert_eq!(decode(&block_swapped, false), pixels);
}

#[test]
fn bc1_alpha_mode_palette() {
    // stored endpoints 0 then 0xFFFF: BC1 reads first <= second as 3-colour
    // punch-through mode
    let block: [u8; 8] = [0x00, 0x00, 0xFF, 0xFF, 0b11100100, 0, 0, 0];
    let pixels = decode(&block, true);
    assert_eq!(pixels[0], [0, 0, 0, 255]);
    assert_eq!(pixels[1], [255, 255, 255, 255]);
    // slot 2 is the truncating per-channel average
    assert_eq!(pixels[2], [127, 127, 127, 255]);
    // slot 3 is fully transparent black
    assert_eq!(pixels[3], [0, 0, 0, 0]);
}

#[test]
fn same_block_is_opaque_outside_bc1() {
    // the very same bytes decode with the 4-colour opaque palette for BC2/BC3
    let block: [u8; 8] = [0x00, 0x00, 0xFF, 0xFF, 0b11100100, 0, 0, 0];
    let pixels = decode(&block, false);
    assert_eq!(pixels[0], [0, 0, 0, 255]);
    assert_eq!(pixels[1], [255, 255, 255, 255]);
    assert_eq!(pixels[2], [85, 85, 85, 255]);
    assert_eq!(pixels[3], [170, 170, 170, 255]);
}

#[test]
fn index_bits_map_to_row_major_pixels() {
    // each index byte covers four pixels, lowest bits first
    let block: [u8; 8] = [0x00, 0x00, 0xFF, 0xFF, 0b00000001, 0b00000100, 0b00010000, 0b01000000];
    let pixels = decode(&block, false);
    for p in 0..16 {
        let expected = match p {
            0 | 5 | 10 | 15 => [255, 255, 255, 255],
            _ => [0, 0, 0, 255],
        };
        assert_eq!(pixels[p], expected, "pixel {}", p);
    }
}

#[test]
fn untouched_channels_and_pixels_stay() {
    let mut sink = Rgba4x4::new();
    assert_eq!(sink.number_of_channels(), 4);
    sink.set_value(2, 3, 1, 99);
    assert_eq!(sink.get_value(2, 3, 1), 99);
    assert_eq!(sink.get_value(2, 3, 0), 0);
    assert_eq!(sink.get_value(3, 2, 1), 0);
}
