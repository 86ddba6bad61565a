//! Pixel grid of a 16x16 bitmap, and its loading from the bytes of a BMP file.

use vstd::prelude::*;

verus! {

/// Width and height, in pixels, of every icon image.
pub const ICON_SIZE: u32 = 16;

/// One decoded pixel: its column, its row (row 0 at the top) and its raw color.
#[derive(Clone, Copy, Debug, PartialEq, Eq, Structural)]
pub struct Pixel {
    pub x: u32,
    pub y: u32,
    pub color: u32,
}

/// The color depths, in bits per pixel, that an icon image may have.
pub open spec fn is_valid_depth(bpp: u16) -> bool {
    bpp == 8 || bpp == 16 || bpp == 24 || bpp == 32
}

/// The pixel lies inside the 16x16 grid.
pub open spec fn in_grid(p: Pixel) -> bool {
    p.x < 16 && p.y < 16
}

/// Every pixel of `s` lies inside the grid.
pub open spec fn all_in_grid(s: Seq<Pixel>) -> bool {
    forall|i: int| 0 <= i < s.len() ==> #[trigger] in_grid(s[i])
}

/// `s` holds every coordinate of the 16x16 grid exactly once.
pub open spec fn is_full_grid(s: Seq<Pixel>) -> bool {
    &&& s.len() == 256
    &&& all_in_grid(s)
    &&& forall|i: int, j: int|
        0 <= i < s.len() && 0 <= j < s.len() && #[trigger] s[i].x == #[trigger] s[j].x
            && s[i].y == s[j].y ==> i == j
}

/// The color depth and the pixels of a 16x16 image.
pub struct MyBmpDatas {
    /// Bits per pixel of the source image.
    pub bpp: u16,
    /// The decoded pixels.
    pub pixels: Vec<Pixel>,
}

impl MyBmpDatas {
    /// A valid depth and a complete grid of pixels.
    pub open spec fn wf(&self) -> bool {
        is_valid_depth(self.bpp) && is_full_grid(self.pixels@)
    }
}

/// Why bytes could not be loaded as an icon image.
#[derive(Clone, Copy, Debug, PartialEq, Eq, Structural)]
pub enum LoadError {
    /// The bytes are not a BMP file.
    DecodeError,
    /// The image is not 16 pixels wide and 16 high.
    SizeError,
    /// The color depth is not 8, 16, 24 or 32 bits per pixel.
    DepthError,
    /// The pixel data is too short to give the 256 pixels of the grid.
    PixelCountError,
}

/// The little-endian 16-bit value at `at`.
pub open spec fn le_u16_at(b: Seq<u8>, at: int) -> u16 {
    (b[at] as int + 256 * b[at + 1]) as u16
}

/// The little-endian 32-bit value at `at`.
pub open spec fn le_u32_at(b: Seq<u8>, at: int) -> u32 {
    (b[at] as int + 256 * b[at + 1] + 65536 * b[at + 2] + 16777216 * b[at + 3]) as u32
}

/// The little-endian value of the `n` bytes from `at`.
pub open spec fn le_value(b: Seq<u8>, at: int, n: nat) -> int
    decreases n,
{
    if n == 0 {
        0
    } else {
        b[at] as int + 256 * le_value(b, at + 1, (n - 1) as nat)
    }
}

/// The bytes start with the 38 bytes of a BMP file header and info header,
/// up to the image data length: the magic "BM", then little-endian fields.
pub open spec fn has_bmp_header(b: Seq<u8>) -> bool {
    b.len() >= 38 && b[0] == 0x42 && b[1] == 0x4D
}

/// The offset of the pixel data, from the file header.
pub open spec fn data_start(b: Seq<u8>) -> u32 {
    le_u32_at(b, 10)
}

/// The declared width.
pub open spec fn header_width(b: Seq<u8>) -> u32 {
    le_u32_at(b, 18)
}

/// The declared height.
pub open spec fn header_height(b: Seq<u8>) -> u32 {
    le_u32_at(b, 22)
}

/// The declared bits per pixel.
pub open spec fn header_bpp(b: Seq<u8>) -> u16 {
    le_u16_at(b, 28)
}

/// The length of one stored row of a 16 pixel wide image: its bits rounded
/// up to a multiple of 4 bytes.
pub open spec fn row_bytes(bpp: u16) -> int {
    (16 * bpp as int + 31) / 32 * 4
}

/// The raw color of pixel (`x`, `y`), row 0 at the top: rows are stored
/// bottom row first, each pixel as `bpp / 8` little-endian bytes.
pub open spec fn pixel_color(b: Seq<u8>, x: int, y: int) -> u32 {
    let bpp = header_bpp(b);
    let at = data_start(b) + row_bytes(bpp) * (15 - y) + x * (bpp / 8);
    le_value(b, at, (bpp / 8) as nat) as u32
}

/// The grid of a 16x16 image, row by row from the top, each row from the left.
pub open spec fn grid_pixels(b: Seq<u8>) -> Seq<Pixel> {
    Seq::new(
        256,
        |i: int| Pixel { x: (i % 16) as u32, y: (i / 16) as u32, color: pixel_color(b, i % 16, i / 16) },
    )
}

/// The pixel data after `data_start` holds the 16 rows of the grid.
pub open spec fn has_pixel_data(b: Seq<u8>) -> bool {
    b.len() - data_start(b) >= 16 * row_bytes(header_bpp(b))
}

/// The first check that `b` fails on its way to an icon image, if any.
pub open spec fn load_error(b: Seq<u8>) -> Option<LoadError> {
    if !has_bmp_header(b) || data_start(b) > b.len() {
        Some(LoadError::DecodeError)
    } else if header_width(b) != 16 || header_height(b) != 16 {
        Some(LoadError::SizeError)
    } else if !is_valid_depth(header_bpp(b)) {
        Some(LoadError::DepthError)
    } else if !has_pixel_data(b) {
        Some(LoadError::PixelCountError)
    } else {
        None
    }
}

/// Relies on tinybmp's `Bmp::from_slice`: it fails exactly when the 38 header
/// bytes are missing or do not start with "BM", and otherwise returns the
/// header's width, height and bits per pixel. It panics when the data offset
/// lies past the end, which `requires` leaves out.
#[verifier::external_body]
fn parse_header(bytes: &[u8]) -> (r: Option<(u32, u32, u16)>)
    requires
        has_bmp_header(bytes@) ==> data_start(bytes@) <= bytes@.len(),
    ensures
        r == (if has_bmp_header(bytes@) {
            Some((header_width(bytes@), header_height(bytes@), header_bpp(bytes@)))
        } else {
            None
        }),
{
    match tinybmp::Bmp::from_slice(bytes) {
        Ok(bmp) => Some((bmp.header.image_width, bmp.header.image_height, bmp.header.bpp)),
        Err(_) => None,
    }
}

/// Relies on tinybmp's `Bmp::from_slice` and the pixel iterator of `&Bmp`:
/// for a 16x16 image it yields the 256 pixels row by row from the top, each
/// with the little-endian value of its stored bytes. The iterator panics on
/// other depths and on pixel data that is too short, which `requires` leaves
/// out.
#[verifier::external_body]
fn decode_pixels(bytes: &[u8]) -> (r: Vec<Pixel>)
    requires
        load_error(bytes@) is None,
    ensures
        r@ == grid_pixels(bytes@),
{
    match tinybmp::Bmp::from_slice(bytes) {
        Ok(bmp) => bmp.into_iter().map(|p| Pixel { x: p.x, y: p.y, color: p.color }).collect(),
        Err(_) => Vec::new(),
    }
}

/// Reads the little-endian 32-bit value at `at`.
fn read_u32_le(bytes: &[u8], at: usize) -> (r: u32)
    requires
        at + 4 <= bytes@.len(),
    ensures
        r == le_u32_at(bytes@, at as int),
{
    bytes[at] as u32 + 256 * (bytes[at + 1] as u32) + 65536 * (bytes[at + 2] as u32) + 16777216 * (
    bytes[at + 3] as u32)
}

proof fn lemma_grid_pixels_full(b: Seq<u8>)
    ensures
        is_full_grid(grid_pixels(b)),
{
    let s = grid_pixels(b);
    assert forall|i: int| 0 <= i < s.len() implies #[trigger] in_grid(s[i]) by {}
    assert forall|i: int, j: int|
        0 <= i < s.len() && 0 <= j < s.len() && #[trigger] s[i].x == #[trigger] s[j].x
            && s[i].y == s[j].y implies i == j by {
        assert(i == 16 * (i / 16) + i % 16);
        assert(j == 16 * (j / 16) + j % 16);
    }
}

impl MyBmpDatas {
    /// Loads the bytes of a BMP file as an icon image. The checks come in
    /// this order: a BMP header whose data offset lies within the bytes,
    /// a 16x16 size, a depth of 8, 16, 24 or 32 bits, and pixel data long
    /// enough for the 256 pixels.
    pub fn load(bytes: &[u8]) -> (r: Result<Self, LoadError>)
        ensures
            r is Err <==> load_error(bytes@) is Some,
            r matches Err(e) ==> load_error(bytes@) == Some(e),
            r matches Ok(d) ==> d.bpp == header_bpp(bytes@) && d.pixels@ == grid_pixels(bytes@)
                && d.wf(),
    {
        if bytes.len() >= 14 && read_u32_le(bytes, 10) as usize > bytes.len() {
            return Err(LoadError::DecodeError);
        }
        let (width, height, bpp) = match parse_header(bytes) {
            Some(h) => h,
            None => {
                return Err(LoadError::DecodeError);
            },
        };
        if width != ICON_SIZE || height != ICON_SIZE {
            return Err(LoadError::SizeError);
        }
        if bpp != 8 && bpp != 16 && bpp != 24 && bpp != 32 {
            return Err(LoadError::DepthError);
        }
        let start = read_u32_le(bytes, 10) as usize;
        if bytes.len() - start < 32 * (bpp as usize) {
            return Err(LoadError::PixelCountError);
        }
        let pixels = decode_pixels(bytes);
        proof {
            lemma_grid_pixels_full(bytes@);
        }
        Ok(MyBmpDatas { bpp, pixels })
    }
}

} // verus!
