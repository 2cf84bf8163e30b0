//! Conversion of raw video buffers into 32-bit pixels with red in bits
//! 16-23, green in bits 8-15 and blue in bits 0-7.

use vstd::prelude::*;

verus! {

/// The encodings in which a core may deliver its frames.
#[derive(Clone, Copy, Debug, PartialEq, Eq, Structural)]
pub enum PixelFormat {
    /// Two bytes per pixel, one unused bit and five bits per channel.
    Argb1555,
    /// Two bytes per pixel: five bits of red, six of green, five of blue.
    Rgb565,
    /// Four bytes per pixel, already in the canonical layout.
    Argb8888,
}

/// Why a raw buffer could not be normalised.
#[derive(Clone, Copy, Debug, PartialEq, Eq, Structural)]
pub enum PixelError {
    /// The buffer's length is not a whole number of source pixels.
    MalformedLength,
}

/// The number of bytes that one source pixel occupies.
pub open spec fn spec_bytes_per_pixel(format: PixelFormat) -> u8 {
    match format {
        PixelFormat::Argb1555 => 2,
        PixelFormat::Rgb565 => 2,
        PixelFormat::Argb8888 => 4,
    }
}

/// The 16-bit pixel whose most significant byte is `high`.
pub open spec fn pack16(high: u8, low: u8) -> u16 {
    ((high as u16) << 8) | (low as u16)
}

/// The five red bits of a 5/6/5 pixel.
pub open spec fn red_field(p: u16) -> u8 {
    (p >> 11) as u8
}

/// The six green bits of a 5/6/5 pixel.
pub open spec fn green_field(p: u16) -> u8 {
    ((p >> 5) & 0x3f) as u8
}

/// The five blue bits of a 5/6/5 pixel.
pub open spec fn blue_field(p: u16) -> u8 {
    (p & 0x1f) as u8
}

/// A five-bit channel widened to eight bits: the three low bits repeat the
/// channel's three high bits.
pub open spec fn expand5(c: u8) -> u8 {
    (c << 3) | (c >> 2)
}

/// A six-bit channel widened to eight bits: the two low bits repeat the
/// channel's two high bits.
pub open spec fn expand6(c: u8) -> u8 {
    (c << 2) | (c >> 4)
}

/// The canonical pixel with the given eight-bit channels.
pub open spec fn compose(red: u8, green: u8, blue: u8) -> u32 {
    ((red as u32) << 16) | ((green as u32) << 8) | (blue as u32)
}

/// The canonical pixel for a 5/6/5 pixel.
pub open spec fn rgb565_to_xrgb8888(p: u16) -> u32 {
    compose(expand5(red_field(p)), expand6(green_field(p)), expand5(blue_field(p)))
}

/// The 32-bit word whose least significant byte is `b0`.
pub open spec fn word_le(b0: u8, b1: u8, b2: u8, b3: u8) -> u32 {
    (b0 as u32) | ((b1 as u32) << 8) | ((b2 as u32) << 16) | ((b3 as u32) << 24)
}

/// The pixels of a buffer of 5/6/5 pixels, each stored high byte first.
pub open spec fn rgb565_pixels(bytes: Seq<u8>) -> Seq<u32> {
    Seq::new(
        (bytes.len() / 2) as nat,
        |i: int| rgb565_to_xrgb8888(pack16(bytes[2 * i], bytes[2 * i + 1])),
    )
}

/// The pixels of a buffer of 32-bit pixels, each stored low byte first.
pub open spec fn xrgb8888_pixels(bytes: Seq<u8>) -> Seq<u32> {
    Seq::new(
        (bytes.len() / 4) as nat,
        |i: int| word_le(bytes[4 * i], bytes[4 * i + 1], bytes[4 * i + 2], bytes[4 * i + 3]),
    )
}

/// What `normalize` yields for a buffer of whole pixels. Both two-byte
/// formats are read with the 5/6/5 layout.
pub open spec fn normalized(format: PixelFormat, bytes: Seq<u8>) -> Seq<u32> {
    match format {
        PixelFormat::Argb8888 => xrgb8888_pixels(bytes),
        _ => rgb565_pixels(bytes),
    }
}

/// The format that a numeric tag of the core interface stands for.
pub open spec fn pixel_format_of_tag(tag: u32) -> Option<PixelFormat> {
    if tag == 0 {
        Some(PixelFormat::Argb1555)
    } else if tag == 1 {
        Some(PixelFormat::Argb8888)
    } else if tag == 2 {
        Some(PixelFormat::Rgb565)
    } else {
        None
    }
}

/// Calls `libretro_sys::PixelFormat::from_uint`, which compares the tag with
/// the three discriminants of its enum (0, 1 and 2) and yields nothing for any
/// other number. The contract restates that table; it is not proved.
#[verifier::external_body]
fn pixel_format_from_uint(tag: u32) -> (format: Option<PixelFormat>)
    ensures
        format == pixel_format_of_tag(tag),
{
    match libretro_sys::PixelFormat::from_uint(tag) {
        Some(libretro_sys::PixelFormat::ARGB1555) => Some(PixelFormat::Argb1555),
        Some(libretro_sys::PixelFormat::ARGB8888) => Some(PixelFormat::Argb8888),
        Some(libretro_sys::PixelFormat::RGB565) => Some(PixelFormat::Rgb565),
        None => None,
    }
}

impl PixelFormat {
    /// The format named by a tag of the core interface, or nothing when the
    /// tag names none.
    pub fn from_tag(tag: u32) -> (format: Option<PixelFormat>)
        ensures
            format == pixel_format_of_tag(tag),
    {
        pixel_format_from_uint(tag)
    }

    /// The number of bytes that one pixel of this format occupies.
    pub fn bytes_per_pixel(self) -> (n: u8)
        ensures
            n == spec_bytes_per_pixel(self),
            n == 2 || n == 4,
    {
        match self {
            PixelFormat::Argb1555 => 2,
            PixelFormat::Rgb565 => 2,
            PixelFormat::Argb8888 => 4,
        }
    }
}

/// Converts one 5/6/5 pixel, given as its two bytes, high byte first.
pub fn convert_rgb565_pixel(high: u8, low: u8) -> (pixel: u32)
    ensures
        pixel == rgb565_to_xrgb8888(pack16(high, low)),
{
    let red: u8 = (high & 0b1111_1000) >> 3;
    let green: u8 = ((high & 0b0000_0111) << 3) | ((low & 0b1110_0000) >> 5);
    let blue: u8 = low & 0b0001_1111;
    let red8: u8 = (red << 3) | (red >> 2);
    let green8: u8 = (green << 2) | (green >> 4);
    let blue8: u8 = (blue << 3) | (blue >> 2);
    let pixel: u32 = ((red8 as u32) << 16) | ((green8 as u32) << 8) | (blue8 as u32);
    assert(pixel == rgb565_to_xrgb8888(pack16(high, low))) by (bit_vector)
        requires
            red == (high & 0b1111_1000) >> 3,
            green == ((high & 0b0000_0111) << 3) | ((low & 0b1110_0000) >> 5),
            blue == low & 0b0001_1111,
            red8 == (red << 3) | (red >> 2),
            green8 == (green << 2) | (green >> 4),
            blue8 == (blue << 3) | (blue >> 2),
            pixel == ((red8 as u32) << 16) | ((green8 as u32) << 8) | (blue8 as u32),
    ;
    pixel
}

/// Converts a buffer of 5/6/5 pixels into canonical pixels, one for each
/// two bytes.
pub fn convert_pixel_array_from_rgb565_to_xrgb8888(color_array: &[u8]) -> (result: Vec<u32>)
    requires
        color_array@.len() % 2 == 0,
    ensures
        result@ == rgb565_pixels(color_array@),
        result@.len() * 2 == color_array@.len(),
{
    let num_pixels: usize = color_array.len() / 2;
    let mut result: Vec<u32> = Vec::with_capacity(num_pixels);
    let mut i: usize = 0;
    while i < num_pixels
        invariant
            num_pixels == color_array@.len() / 2,
            color_array@.len() <= usize::MAX,
            i <= num_pixels,
            result@.len() == i,
            forall|k: int|
                0 <= k < i ==> #[trigger] result@[k] == rgb565_to_xrgb8888(
                    pack16(color_array@[2 * k], color_array@[2 * k + 1]),
                ),
        decreases num_pixels - i,
    {
        let high: u8 = color_array[2 * i];
        let low: u8 = color_array[2 * i + 1];
        result.push(convert_rgb565_pixel(high, low));
        i = i + 1;
    }
    result
}

/// Reads a buffer of 32-bit pixels, one for each four bytes, without
/// changing any channel.
pub fn convert_pixel_array_from_xrgb8888(color_array: &[u8]) -> (result: Vec<u32>)
    requires
        color_array@.len() % 4 == 0,
    ensures
        result@ == xrgb8888_pixels(color_array@),
        result@.len() * 4 == color_array@.len(),
{
    let num_pixels: usize = color_array.len() / 4;
    let mut result: Vec<u32> = Vec::with_capacity(num_pixels);
    let mut i: usize = 0;
    while i < num_pixels
        invariant
            num_pixels == color_array@.len() / 4,
            color_array@.len() <= usize::MAX,
            i <= num_pixels,
            result@.len() == i,
            forall|k: int|
                0 <= k < i ==> #[trigger] result@[k] == word_le(
                    color_array@[4 * k],
                    color_array@[4 * k + 1],
                    color_array@[4 * k + 2],
                    color_array@[4 * k + 3],
                ),
        decreases num_pixels - i,
    {
        let b0: u8 = color_array[4 * i];
        let b1: u8 = color_array[4 * i + 1];
        let b2: u8 = color_array[4 * i + 2];
        let b3: u8 = color_array[4 * i + 3];
        let word: u32 = (b0 as u32) | ((b1 as u32) << 8) | ((b2 as u32) << 16) | ((b3 as u32)
            << 24);
        result.push(word);
        i = i + 1;
    }
    result
}

/// Normalises a raw buffer of the given format. The buffer is rejected when
/// its length is not a multiple of the format's pixel width, and for no
/// other reason.
pub fn normalize(format: PixelFormat, bytes: &[u8]) -> (result: Result<Vec<u32>, PixelError>)
    ensures
        match result {
            Ok(pixels) => {
                &&& bytes@.len() % (spec_bytes_per_pixel(format) as nat) == 0
                &&& pixels@ == normalized(format, bytes@)
                &&& pixels@.len() * spec_bytes_per_pixel(format) == bytes@.len()
            },
            Err(e) => {
                &&& bytes@.len() % (spec_bytes_per_pixel(format) as nat) != 0
                &&& e == PixelError::MalformedLength
            },
        },
{
    let width: usize = format.bytes_per_pixel() as usize;
    if bytes.len() % width != 0 {
        return Err(PixelError::MalformedLength);
    }
    match format {
        PixelFormat::Argb8888 => Ok(convert_pixel_array_from_xrgb8888(bytes)),
        PixelFormat::Argb1555 => Ok(convert_pixel_array_from_rgb565_to_xrgb8888(bytes)),
        PixelFormat::Rgb565 => Ok(convert_pixel_array_from_rgb565_to_xrgb8888(bytes)),
    }
}

/// Widening by bit replication loses nothing: the top five, six and five
/// bits of the red, green and blue channels of a normalised pixel are the
/// fields of the 5/6/5 pixel it came from, and the unused top byte is zero.
pub proof fn lemma_rgb565_round_trip(p: u16)
    ensures
        ((rgb565_to_xrgb8888(p) >> 19) & 0x1f) as u8 == red_field(p),
        ((rgb565_to_xrgb8888(p) >> 10) & 0x3f) as u8 == green_field(p),
        ((rgb565_to_xrgb8888(p) >> 3) & 0x1f) as u8 == blue_field(p),
        rgb565_to_xrgb8888(p) >> 24 == 0,
{
    assert(((rgb565_to_xrgb8888(p) >> 19) & 0x1f) as u8 == red_field(p)) by (bit_vector);
    assert(((rgb565_to_xrgb8888(p) >> 10) & 0x3f) as u8 == green_field(p)) by (bit_vector);
    assert(((rgb565_to_xrgb8888(p) >> 3) & 0x1f) as u8 == blue_field(p)) by (bit_vector);
    assert(rgb565_to_xrgb8888(p) >> 24 == 0) by (bit_vector);
}

/// The three fields of a 5/6/5 pixel determine it: two pixels with the same
/// fields are the same pixel.
pub proof fn lemma_rgb565_fields_determine_pixel(p: u16, q: u16)
    requires
        red_field(p) == red_field(q),
        green_field(p) == green_field(q),
        blue_field(p) == blue_field(q),
    ensures
        p == q,
{
    assert(p == q) by (bit_vector)
        requires
            red_field(p) == red_field(q),
            green_field(p) == green_field(q),
            blue_field(p) == blue_field(q),
    ;
}

/// A buffer of `4 * n` bytes in the 32-bit format normalises to exactly `n`
/// pixels, and pixel `i` is the word stored in bytes `4 * i` to `4 * i + 3`.
pub proof fn lemma_xrgb8888_one_pixel_per_four_bytes(bytes: Seq<u8>, n: nat)
    requires
        bytes.len() == 4 * n,
    ensures
        normalized(PixelFormat::Argb8888, bytes).len() == n,
        forall|i: int|
            0 <= i < n ==> #[trigger] normalized(PixelFormat::Argb8888, bytes)[i] == word_le(
                bytes[4 * i],
                bytes[4 * i + 1],
                bytes[4 * i + 2],
                bytes[4 * i + 3],
            ),
{
}

/// Reading a 32-bit pixel changes no channel: each byte of the word is the
/// byte of the buffer it was read from.
pub proof fn lemma_word_le_bytes(b0: u8, b1: u8, b2: u8, b3: u8)
    ensures
        (word_le(b0, b1, b2, b3) & 0xff) as u8 == b0,
        ((word_le(b0, b1, b2, b3) >> 8) & 0xff) as u8 == b1,
        ((word_le(b0, b1, b2, b3) >> 16) & 0xff) as u8 == b2,
        ((word_le(b0, b1, b2, b3) >> 24) & 0xff) as u8 == b3,
{
    assert((word_le(b0, b1, b2, b3) & 0xff) as u8 == b0) by (bit_vector);
    assert(((word_le(b0, b1, b2, b3) >> 8) & 0xff) as u8 == b1) by (bit_vector);
    assert(((word_le(b0, b1, b2, b3) >> 16) & 0xff) as u8 == b2) by (bit_vector);
    assert(((word_le(b0, b1, b2, b3) >> 24) & 0xff) as u8 == b3) by (bit_vector);
}

} // verus!
