use mkicon::image::{LoadError, MyBmpDatas, Pixel};
use mkicon::pattern::{classify, BitsPatterns, PixelClass};

/// Bytes of an uncompressed BMP file: a 54-byte header, then the rows
/// bottom row first, each padded to a multiple of 4 bytes. `color(x, y)`
/// gives each pixel, row 0 at the top.
fn bmp_bytes(width: u32, height: u32, bpp: u16, color: &dyn Fn(u32, u32) -> u32) -> Vec<u8> {
    let row_len = ((width as usize * bpp as usize + 31) / 32) * 4;
    let data_len = row_len * height as usize;
    let mut b: Vec<u8> = Vec::new();
    b.extend_from_slice(b"BM");
    b.extend_from_slice(&((54 + data_len) as u32).to_le_bytes());
    b.extend_from_slice(&0u16.to_le_bytes());
    b.extend_from_slice(&0u16.to_le_bytes());
    b.extend_from_slice(&54u32.to_le_bytes());
    b.extend_from_slice(&40u32.to_le_bytes());
    b.extend_from_slice(&width.to_le_bytes());
    b.extend_from_slice(&height.to_le_bytes());
    b.extend_from_slice(&1u16.to_le_bytes());
    b.extend_from_slice(&bpp.to_le_bytes());
    b.extend_from_slice(&0u32.to_le_bytes());
    b.extend_from_slice(&(data_len as u32).to_le_bytes());
    b.extend_from_slice(&[0u8; 16]);
    let per_pixel = (bpp / 8) as usize;
    for row in 0..height {
        let y = height - 1 - row;
        let mut line: Vec<u8> = Vec::new();
        for x in 0..width {
            let c = color(x, y).to_le_bytes();
            line.extend_from_slice(&c[..per_pixel]);
        }
        line.resize(row_len, 0);
        b.extend_from_slice(&line);
    }
    b
}

fn grid(bpp: u16, color: &dyn Fn(u32, u32) -> u32) -> MyBmpDatas {
    let mut pixels: Vec<Pixel> = Vec::new();
    for y in 0..16u32 {
        for x in 0..16u32 {
            pixels.push(Pixel { x, y, color: color(x, y) });
        }
    }
    MyBmpDatas { bpp, pixels }
}

fn patterns_of(bytes: &[u8]) -> BitsPatterns {
    match BitsPatterns::from_bmp(bytes) {
        Ok(p) => p,
        Err(e) => panic!("load failed: {:?}", e),
    }
}

fn load_error_of(bytes: &[u8]) -> LoadError {
    match MyBmpDatas::load(bytes) {
        Ok(_) => panic!("load succeeded"),
        Err(e) => e,
    }
}

#[test]
fn test_make_pattern() {
    let pat_0: [u16; 16] = [
        0x0000, 0x0C00, 0x1200, 0x2100, 0x2480, 0x1240, 0x4920, 0x2490, 0x1248, 0x0924, 0x0494, 0x0264, 0x0108, 0x00F0, 0x0000, 0x0000,
    ];
    let pat_1: [u16; 16] = [
        0x0000, 0x1000, 0x2400, 0x0200, 0x0100, 0x2480, 0x1240, 0x4920, 0x2490, 0x1248, 0x0920, 0x0480, 0x0204, 0x0108, 0x0000, 0x0000,
    ];
    let bytes = bmp_bytes(16, 16, 8, &|x, y| {
        let bit = 0x8000u16 >> x;
        if pat_0[y as usize] & bit != 0 {
            1
        } else if pat_1[y as usize] & bit != 0 {
            5
        } else {
            0
        }
    });
    let bpp_and_pixels = MyBmpDatas::load(&bytes);
    let patterns = BitsPatterns::make(bpp_and_pixels.unwrap());
    assert_eq!(patterns.lights, pat_0, "\nlights pattern differs\n\n");
    assert_eq!(patterns.half, pat_1, "\nhalf-tone pattern differs\n\n");
}

#[test]
fn repeated_runs_give_identical_patterns() {
    let bytes = bmp_bytes(16, 16, 24, &|x, y| if (x + y) % 3 == 0 { 0xFF_FFFF } else { x * y });
    let first = patterns_of(&bytes);
    let second = patterns_of(&bytes);
    assert_eq!(first.lights, second.lights);
    assert_eq!(first.half, second.half);
}

#[test]
fn every_pixel_falls_in_one_class() {
    let data = grid(8, &|x, y| (x + 2 * y) % 3);
    let p = BitsPatterns::make(data);
    for y in 0..16u32 {
        assert_eq!(p.lights[y as usize] & p.half[y as usize], 0);
        for x in 0..16u32 {
            let bit = 0x8000u16 >> x;
            let class = (x + 2 * y) % 3;
            assert_eq!(p.lights[y as usize] & bit != 0, class == 1);
            assert_eq!(p.half[y as usize] & bit != 0, class == 2);
        }
    }
}

#[test]
fn processing_order_does_not_matter() {
    let color = |x: u32, y: u32| (x * 7 + y * 3) % 4;
    let forward = BitsPatterns::make(grid(8, &color));
    let mut reversed = grid(8, &color);
    reversed.pixels.reverse();
    let backward = BitsPatterns::make(reversed);
    assert_eq!(forward.lights, backward.lights);
    assert_eq!(forward.half, backward.half);
}

#[test]
fn row_masks_depend_only_on_their_row() {
    let a = BitsPatterns::make(grid(8, &|x, y| if y == 4 { x % 3 } else { 0 }));
    let b = BitsPatterns::make(grid(8, &|x, y| if y == 4 { x % 3 } else { (x + y) % 5 }));
    assert_eq!(a.lights[4], b.lights[4]);
    assert_eq!(a.half[4], b.half[4]);
}

#[test]
fn leftmost_pixel_sets_bit_15() {
    let p = BitsPatterns::make(grid(8, &|x, y| if x == 0 && y == 0 { 1 } else { 0 }));
    let mut lights = [0u16; 16];
    lights[0] = 0x8000;
    assert_eq!(p.lights, lights);
    assert_eq!(p.half, [0u16; 16]);
}

#[test]
fn rightmost_pixel_sets_bit_0() {
    let p = BitsPatterns::make(grid(8, &|x, y| if x == 15 && y == 0 { 1 } else { 0 }));
    let mut lights = [0u16; 16];
    lights[0] = 0x0001;
    assert_eq!(p.lights, lights);
    assert_eq!(p.half, [0u16; 16]);
}

#[test]
fn unit_color_is_light_only_at_8_bits() {
    assert_eq!(classify(1, 8), PixelClass::FullLight);
    assert_eq!(classify(1, 16), PixelClass::HalfTone);
    assert_eq!(classify(1, 24), PixelClass::HalfTone);
    assert_eq!(classify(1, 32), PixelClass::HalfTone);
    let p = BitsPatterns::make(grid(24, &|x, y| if x == 3 && y == 5 { 1 } else { 0 }));
    assert_eq!(p.lights, [0u16; 16]);
    assert_eq!(p.half[5], 0x1000);
}

#[test]
fn classify_light_colors_per_depth() {
    assert_eq!(classify(0, 8), PixelClass::Background);
    assert_eq!(classify(0, 32), PixelClass::Background);
    assert_eq!(classify(2, 8), PixelClass::HalfTone);
    assert_eq!(classify(0x7FFF, 16), PixelClass::FullLight);
    assert_eq!(classify(0x8000, 16), PixelClass::HalfTone);
    assert_eq!(classify(0xFF_FFFF, 24), PixelClass::FullLight);
    assert_eq!(classify(0xFF_FFFF, 32), PixelClass::FullLight);
    assert_eq!(classify(0xFF_FFFE, 32), PixelClass::HalfTone);
}

#[test]
fn wrong_sizes_are_rejected() {
    let black = |_: u32, _: u32| 0u32;
    assert_eq!(load_error_of(&bmp_bytes(15, 16, 8, &black)), LoadError::SizeError);
    assert_eq!(load_error_of(&bmp_bytes(17, 16, 8, &black)), LoadError::SizeError);
    assert_eq!(load_error_of(&bmp_bytes(16, 17, 8, &black)), LoadError::SizeError);
    assert!(matches!(BitsPatterns::from_bmp(&bmp_bytes(16, 15, 24, &black)), Err(LoadError::SizeError)));
}

#[test]
fn unsupported_depth_is_rejected() {
    let mut bytes = bmp_bytes(16, 16, 16, &|_, _| 0);
    bytes[28] = 12;
    assert_eq!(load_error_of(&bytes), LoadError::DepthError);
    let mut one_bit = bmp_bytes(16, 16, 8, &|_, _| 0);
    one_bit[28] = 1;
    assert_eq!(load_error_of(&one_bit), LoadError::DepthError);
}

#[test]
fn size_is_checked_before_depth() {
    let mut bytes = bmp_bytes(15, 16, 16, &|_, _| 0);
    bytes[28] = 12;
    assert_eq!(load_error_of(&bytes), LoadError::SizeError);
}

#[test]
fn non_bmp_bytes_are_rejected() {
    assert_eq!(load_error_of(&[]), LoadError::DecodeError);
    assert_eq!(load_error_of(b"BM"), LoadError::DecodeError);
    let mut bytes = bmp_bytes(16, 16, 8, &|_, _| 0);
    bytes[0] = b'P';
    assert_eq!(load_error_of(&bytes), LoadError::DecodeError);
    let header_only = bmp_bytes(16, 16, 8, &|_, _| 0)[..37].to_vec();
    assert_eq!(load_error_of(&header_only), LoadError::DecodeError);
}

#[test]
fn data_offset_past_the_end_is_rejected() {
    let mut bytes = bmp_bytes(16, 16, 8, &|_, _| 0);
    bytes[10..14].copy_from_slice(&10_000u32.to_le_bytes());
    assert_eq!(load_error_of(&bytes), LoadError::DecodeError);
}

#[test]
fn short_pixel_data_is_rejected() {
    let mut bytes = bmp_bytes(16, 16, 32, &|_, _| 0);
    bytes.pop();
    assert_eq!(load_error_of(&bytes), LoadError::PixelCountError);
}

#[test]
fn loaded_pixels_are_row_major_from_the_top() {
    let bytes = bmp_bytes(16, 16, 16, &|x, y| 100 * y + x + 1);
    let data = MyBmpDatas::load(&bytes).unwrap();
    assert_eq!(data.bpp, 16);
    assert_eq!(data.pixels.len(), 256);
    assert_eq!(data.pixels[0], Pixel { x: 0, y: 0, color: 1 });
    assert_eq!(data.pixels[17], Pixel { x: 1, y: 1, color: 102 });
    assert_eq!(data.pixels[255], Pixel { x: 15, y: 15, color: 1516 });
}

#[test]
fn single_light_pixel_end_to_end_each_depth() {
    for (bpp, light) in [(8u16, 1u32), (16, 0x7FFF), (24, 0xFF_FFFF), (32, 0xFF_FFFF)] {
        let bytes = bmp_bytes(16, 16, bpp, &|x, y| if x == 0 && y == 1 { light } else { 0 });
        let p = patterns_of(&bytes);
        let mut lights = [0u16; 16];
        lights[1] = 0x8000;
        assert_eq!(p.lights, lights);
        assert_eq!(p.half, [0u16; 16]);
    }
}

#[test]
fn mixed_pixels_end_to_end() {
    let bytes = bmp_bytes(16, 16, 24, &|x, y| match (x, y) {
        (1, 2) => 0x80_8080,
        (2, 2) => 0xFF_FFFF,
        _ => 0,
    });
    let p = patterns_of(&bytes);
    for y in 0..16 {
        assert_eq!(p.lights[y], if y == 2 { 0x2000 } else { 0 });
        assert_eq!(p.half[y], if y == 2 { 0x4000 } else { 0 });
    }
}

#[test]
fn empty_image_gives_zero_patterns() {
    let p = patterns_of(&bmp_bytes(16, 16, 32, &|_, _| 0));
    assert_eq!(p.lights, [0u16; 16]);
    assert_eq!(p.half, [0u16; 16]);
}

#[test]
fn full_light_image_sets_every_bit() {
    let p = patterns_of(&bmp_bytes(16, 16, 8, &|_, _| 1));
    assert_eq!(p.lights, [0xFFFFu16; 16]);
    assert_eq!(p.half, [0u16; 16]);
}
