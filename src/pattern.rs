//! Classification of pixels into background, fully lit and half-tone dots,
//! and the packing of each row into a 16-bit mask.

use vstd::prelude::*;
use crate::image::{
    all_in_grid, grid_pixels, header_bpp, in_grid, is_valid_depth, load_error, LoadError, MyBmpDatas,
    Pixel,
};

verus! {

/// The class of one pixel.
#[derive(Clone, Copy, Debug, PartialEq, Eq, Structural)]
pub enum PixelClass {
    /// Raw color 0: no dot.
    Background,
    /// The depth's fully lit color.
    FullLight,
    /// Any other color.
    HalfTone,
}

/// The raw color that counts as fully lit at a depth: palette index 1 at
/// 8 bits; white in 5-5-5 packing (0x7FFF) at 16 bits; 24-bit white at 24
/// and 32 bits.
pub open spec fn light_value(bpp: u16) -> u32 {
    if bpp == 8 {
        1
    } else if bpp == 16 {
        0x7FFF
    } else {
        0xFF_FFFF
    }
}

/// The class of a pixel of raw color `color` in an image of depth `bpp`.
pub open spec fn class_of(color: u32, bpp: u16) -> PixelClass {
    if color == 0 {
        PixelClass::Background
    } else if color == light_value(bpp) {
        PixelClass::FullLight
    } else {
        PixelClass::HalfTone
    }
}

/// The bit of column `x` in a row mask: bit 15 for the leftmost column,
/// bit 0 for the rightmost.
pub open spec fn column_bit(x: u32) -> u16 {
    0x8000u16 >> (x as u16)
}

/// The mask of row `y` that marks the columns of the pixels of `s` in that
/// row whose class is `c`.
pub open spec fn row_mask(s: Seq<Pixel>, bpp: u16, y: u32, c: PixelClass) -> u16
    decreases s.len(),
{
    if s.len() == 0 {
        0
    } else {
        let rest = row_mask(s.drop_last(), bpp, y, c);
        let p = s.last();
        if p.y == y && class_of(p.color, bpp) == c {
            rest | column_bit(p.x)
        } else {
            rest
        }
    }
}

/// Column `x` is marked in the row mask `m`.
pub open spec fn has_col(m: u16, x: u32) -> bool {
    m & column_bit(x) != 0
}

/// Some pixel of `s` at (`x`, `y`) has class `c`.
pub open spec fn has_pixel_of_class(s: Seq<Pixel>, bpp: u16, x: u32, y: u32, c: PixelClass) -> bool {
    exists|i: int|
        0 <= i < s.len() && #[trigger] s[i].x == x && s[i].y == y && class_of(s[i].color, bpp) == c
}

/// `p` holds, row by row, the masks of the fully lit and of the half-tone
/// pixels of `s`.
pub open spec fn is_pattern_of(s: Seq<Pixel>, bpp: u16, p: BitsPatterns) -> bool {
    &&& forall|y: int|
        0 <= y < 16 ==> #[trigger] p.lights[y] == row_mask(s, bpp, y as u32, PixelClass::FullLight)
    &&& forall|y: int|
        0 <= y < 16 ==> #[trigger] p.half[y] == row_mask(s, bpp, y as u32, PixelClass::HalfTone)
}

/// `p` is the icon pattern of the BMP file `b`.
pub open spec fn is_icon_of(b: Seq<u8>, p: BitsPatterns) -> bool {
    load_error(b) is None && is_pattern_of(grid_pixels(b), header_bpp(b), p)
}

proof fn lemma_column_bit_or(a: u16, px: u16, x: u16)
    requires
        px < 16,
        x < 16,
    ensures
        ((a | (0x8000u16 >> px)) & (0x8000u16 >> x) != 0) == ((a & (0x8000u16 >> x) != 0) || px
            == x),
        (0u16 & (0x8000u16 >> x)) == 0,
{
    assert(((a | (0x8000u16 >> px)) & (0x8000u16 >> x) != 0) == ((a & (0x8000u16 >> x) != 0) || px
        == x)) by (bit_vector)
        requires
            px < 16,
            x < 16,
    ;
    assert((0u16 & (0x8000u16 >> x)) == 0) by (bit_vector);
}

/// Column `x` is marked in the mask of row `y` exactly when some pixel of
/// `s` at (`x`, `y`) has class `c`.
pub proof fn lemma_row_mask_column(s: Seq<Pixel>, bpp: u16, y: u32, c: PixelClass, x: u32)
    requires
        all_in_grid(s),
        x < 16,
    ensures
        has_col(row_mask(s, bpp, y, c), x) == has_pixel_of_class(s, bpp, x, y, c),
    decreases s.len(),
{
    if s.len() == 0 {
        lemma_column_bit_or(0, 0, x as u16);
    } else {
        let t = s.drop_last();
        let p = s.last();
        assert(in_grid(s[s.len() - 1]));
        assert forall|i: int| 0 <= i < t.len() implies #[trigger] in_grid(t[i]) by {
            assert(in_grid(s[i]));
        }
        lemma_row_mask_column(t, bpp, y, c, x);
        lemma_column_bit_or(row_mask(t, bpp, y, c), p.x as u16, x as u16);
        if has_pixel_of_class(t, bpp, x, y, c) {
            let i = choose|i: int|
                0 <= i < t.len() && #[trigger] t[i].x == x && t[i].y == y && class_of(t[i].color, bpp)
                    == c;
            assert(s[i] == t[i]);
        }
        if has_pixel_of_class(s, bpp, x, y, c) {
            let i = choose|i: int|
                0 <= i < s.len() && #[trigger] s[i].x == x && s[i].y == y && class_of(s[i].color, bpp)
                    == c;
            if i < t.len() {
                assert(t[i] == s[i]);
            }
        }
    }
}

/// The fully lit color of a valid depth.
pub fn light_color(bpp: u16) -> (r: u32)
    requires
        is_valid_depth(bpp),
    ensures
        r == light_value(bpp),
{
    if bpp == 8 {
        1
    } else if bpp == 16 {
        0x7FFF
    } else {
        0xFF_FFFF
    }
}

/// Classifies a pixel of raw color `color` in an image of depth `bpp`.
pub fn classify(color: u32, bpp: u16) -> (r: PixelClass)
    requires
        is_valid_depth(bpp),
    ensures
        r == class_of(color, bpp),
{
    if color == 0 {
        PixelClass::Background
    } else if color == light_color(bpp) {
        PixelClass::FullLight
    } else {
        PixelClass::HalfTone
    }
}

/// The two patterns of an icon, one mask per row, row 0 first.
pub struct BitsPatterns {
    /// Fully lit dots.
    pub lights: [u16; 16],
    /// Half-tone dots.
    pub half: [u16; 16],
}

impl BitsPatterns {
    /// Classifies every pixel and sets its column bit in the mask of its row,
    /// in `lights` for a fully lit pixel and in `half` for a half-tone one.
    pub fn make(data: MyBmpDatas) -> (r: Self)
        requires
            is_valid_depth(data.bpp),
            all_in_grid(data.pixels@),
        ensures
            is_pattern_of(data.pixels@, data.bpp, r),
    {
        let bpp = data.bpp;
        let pixels = data.pixels;
        let mut lights: [u16; 16] = [0u16; 16];
        let mut half: [u16; 16] = [0u16; 16];
        let mut i: usize = 0;
        while i < pixels.len()
            invariant
                i <= pixels.len(),
                is_valid_depth(bpp),
                all_in_grid(pixels@),
                forall|y: int|
                    0 <= y < 16 ==> #[trigger] lights[y] == row_mask(
                        pixels@.take(i as int),
                        bpp,
                        y as u32,
                        PixelClass::FullLight,
                    ),
                forall|y: int|
                    0 <= y < 16 ==> #[trigger] half[y] == row_mask(
                        pixels@.take(i as int),
                        bpp,
                        y as u32,
                        PixelClass::HalfTone,
                    ),
            decreases pixels.len() - i,
        {
            let p = pixels[i];
            assert(in_grid(pixels@[i as int]));
            assert(pixels@.take(i as int + 1).drop_last() =~= pixels@.take(i as int));
            let bit: u16 = 0x8000u16 >> (p.x as u16);
            let row = p.y as usize;
            match classify(p.color, bpp) {
                PixelClass::Background => {},
                PixelClass::FullLight => {
                    lights[row] = lights[row] | bit;
                },
                PixelClass::HalfTone => {
                    half[row] = half[row] | bit;
                },
            }
            i += 1;
        }
        assert(pixels@.take(pixels.len() as int) =~= pixels@);
        BitsPatterns { lights, half }
    }
}

impl BitsPatterns {
    /// Loads the bytes of a BMP file and builds its icon patterns, or tells
    /// the first check that the bytes fail.
    pub fn from_bmp(bytes: &[u8]) -> (r: Result<Self, LoadError>)
        ensures
            r is Err <==> load_error(bytes@) is Some,
            r matches Err(e) ==> load_error(bytes@) == Some(e),
            r matches Ok(p) ==> is_icon_of(bytes@, p),
    {
        match MyBmpDatas::load(bytes) {
            Ok(data) => Ok(BitsPatterns::make(data)),
            Err(e) => Err(e),
        }
    }
}

} // verus!
