use rustroarch::pixel::{
    convert_pixel_array_from_rgb565_to_xrgb8888, convert_pixel_array_from_xrgb8888,
    convert_rgb565_pixel, normalize, PixelError, PixelFormat,
};

#[test]
fn rgb565_white_and_black() {
    let out = convert_pixel_array_from_rgb565_to_xrgb8888(&[0xff, 0xff, 0x00, 0x00]);
    assert_eq!(out, vec![0x00ff_ffff, 0x0000_0000]);
}

#[test]
fn rgb565_pure_channels() {
    // red 11111, green 000000, blue 00000
    assert_eq!(convert_rgb565_pixel(0xf8, 0x00), 0x00ff_0000);
    // green 111111
    assert_eq!(convert_rgb565_pixel(0x07, 0xe0), 0x0000_ff00);
    // blue 11111
    assert_eq!(convert_rgb565_pixel(0x00, 0x1f), 0x0000_00ff);
}

#[test]
fn rgb565_mid_grey_replicates_high_bits() {
    // red 10000 -> 10000100, green 100000 -> 10000010, blue 10000 -> 10000100
    assert_eq!(convert_rgb565_pixel(0x84, 0x10), 0x0084_8284);
    // red 00001 -> 00001000, green 000001 -> 00000100, blue 00001 -> 00001000
    assert_eq!(convert_rgb565_pixel(0x08, 0x21), 0x0008_0408);
}

#[test]
fn rgb565_fields_survive_for_every_pixel() {
    for p in 0..=u16::MAX {
        let out = convert_rgb565_pixel((p >> 8) as u8, (p & 0xff) as u8);
        assert_eq!((out >> 19) & 0x1f, u32::from(p >> 11));
        assert_eq!((out >> 10) & 0x3f, u32::from((p >> 5) & 0x3f));
        assert_eq!((out >> 3) & 0x1f, u32::from(p & 0x1f));
        assert_eq!(out >> 24, 0);
    }
}

#[test]
fn rgb565_expansion_matches_the_formula_for_every_pixel() {
    for p in 0..=u16::MAX {
        let r = u32::from(p >> 11);
        let g = u32::from((p >> 5) & 0x3f);
        let b = u32::from(p & 0x1f);
        let expected = (((r << 3) | (r >> 2)) << 16) | (((g << 2) | (g >> 4)) << 8) | ((b << 3) | (b >> 2));
        assert_eq!(convert_rgb565_pixel((p >> 8) as u8, (p & 0xff) as u8), expected);
    }
}

#[test]
fn rgb565_one_pixel_per_two_bytes() {
    let bytes: Vec<u8> = (0..200u32).map(|i| (i * 7 % 256) as u8).collect();
    let out = convert_pixel_array_from_rgb565_to_xrgb8888(&bytes);
    assert_eq!(out.len(), 100);
    for (i, pixel) in out.iter().enumerate() {
        assert_eq!(*pixel, convert_rgb565_pixel(bytes[2 * i], bytes[2 * i + 1]));
    }
}

#[test]
fn rgb565_empty_buffer() {
    assert_eq!(convert_pixel_array_from_rgb565_to_xrgb8888(&[]), Vec::<u32>::new());
}

#[test]
fn xrgb8888_is_read_word_by_word() {
    let bytes: Vec<u8> = (0..64u32).map(|i| (i * 37 % 256) as u8).collect();
    let out = convert_pixel_array_from_xrgb8888(&bytes);
    assert_eq!(out.len(), 16);
    for (i, pixel) in out.iter().enumerate() {
        let word = [bytes[4 * i], bytes[4 * i + 1], bytes[4 * i + 2], bytes[4 * i + 3]];
        assert_eq!(*pixel, u32::from_le_bytes(word));
    }
}

#[test]
fn xrgb8888_channel_order() {
    // blue, green, red, unused
    let out = convert_pixel_array_from_xrgb8888(&[0x11, 0x22, 0x33, 0x00]);
    assert_eq!(out, vec![0x0033_2211]);
}

#[test]
fn normalize_32_bit_yields_n_pixels_for_4n_bytes() {
    for n in 0..20usize {
        let bytes: Vec<u8> = (0..4 * n).map(|i| (i * 13 % 256) as u8).collect();
        let out = normalize(PixelFormat::Argb8888, &bytes).unwrap();
        assert_eq!(out.len(), n);
        for i in 0..n {
            let word = [bytes[4 * i], bytes[4 * i + 1], bytes[4 * i + 2], bytes[4 * i + 3]];
            assert_eq!(out[i], u32::from_le_bytes(word));
        }
    }
}

#[test]
fn normalize_two_byte_formats_share_the_565_layout() {
    let bytes = [0xf8, 0x00, 0x07, 0xe0, 0x00, 0x1f];
    let expected = vec![0x00ff_0000, 0x0000_ff00, 0x0000_00ff];
    assert_eq!(normalize(PixelFormat::Rgb565, &bytes), Ok(expected.clone()));
    assert_eq!(normalize(PixelFormat::Argb1555, &bytes), Ok(expected));
}

#[test]
fn normalize_rejects_odd_length() {
    assert_eq!(normalize(PixelFormat::Rgb565, &[1, 2, 3]), Err(PixelError::MalformedLength));
    assert_eq!(normalize(PixelFormat::Argb1555, &[1]), Err(PixelError::MalformedLength));
}

#[test]
fn normalize_rejects_length_that_is_no_multiple_of_four() {
    assert_eq!(normalize(PixelFormat::Argb8888, &[1, 2]), Err(PixelError::MalformedLength));
    assert_eq!(normalize(PixelFormat::Argb8888, &[1, 2, 3, 4, 5, 6]), Err(PixelError::MalformedLength));
}

#[test]
fn normalize_accepts_empty_buffer() {
    assert_eq!(normalize(PixelFormat::Argb8888, &[]), Ok(vec![]));
    assert_eq!(normalize(PixelFormat::Rgb565, &[]), Ok(vec![]));
}

#[test]
fn bytes_per_pixel_of_each_format() {
    assert_eq!(PixelFormat::Argb1555.bytes_per_pixel(), 2);
    assert_eq!(PixelFormat::Rgb565.bytes_per_pixel(), 2);
    assert_eq!(PixelFormat::Argb8888.bytes_per_pixel(), 4);
}

#[test]
fn from_tag_knows_three_tags() {
    assert_eq!(PixelFormat::from_tag(0), Some(PixelFormat::Argb1555));
    assert_eq!(PixelFormat::from_tag(1), Some(PixelFormat::Argb8888));
    assert_eq!(PixelFormat::from_tag(2), Some(PixelFormat::Rgb565));
    assert_eq!(PixelFormat::from_tag(3), None);
    assert_eq!(PixelFormat::from_tag(u32::MAX), None);
}

#[test]
fn from_tag_agrees_with_the_interface_crate() {
    for tag in (0..16u32).chain([255, 256, 65536, u32::MAX]) {
        let theirs = libretro_sys::PixelFormat::from_uint(tag);
        let ours = PixelFormat::from_tag(tag);
        match (theirs, ours) {
            (None, None) => {}
            (Some(libretro_sys::PixelFormat::ARGB1555), Some(PixelFormat::Argb1555)) => {}
            (Some(libretro_sys::PixelFormat::ARGB8888), Some(PixelFormat::Argb8888)) => {}
            (Some(libretro_sys::PixelFormat::RGB565), Some(PixelFormat::Rgb565)) => {}
            _ => panic!("tag {} is read differently", tag),
        }
    }
}
