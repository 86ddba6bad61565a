//! Laws of the icon patterns, proved over the contracts of the loader and
//! the classifier.

use vstd::prelude::*;
use crate::image::{all_in_grid, in_grid, is_full_grid, is_valid_depth, Pixel};
use crate::pattern::{
    class_of, has_col, has_pixel_of_class, is_icon_of, lemma_row_mask_column, row_mask, BitsPatterns,
    PixelClass,
};

verus! {

/// Two masks that agree on every column are equal.
proof fn lemma_same_columns(a: u16, b: u16)
    requires
        forall|x: u32| x < 16 ==> #[trigger] has_col(a, x) == has_col(b, x),
    ensures
        a == b,
{
    assert(has_col(a, 0) == has_col(b, 0));
    assert(has_col(a, 1) == has_col(b, 1));
    assert(has_col(a, 2) == has_col(b, 2));
    assert(has_col(a, 3) == has_col(b, 3));
    assert(has_col(a, 4) == has_col(b, 4));
    assert(has_col(a, 5) == has_col(b, 5));
    assert(has_col(a, 6) == has_col(b, 6));
    assert(has_col(a, 7) == has_col(b, 7));
    assert(has_col(a, 8) == has_col(b, 8));
    assert(has_col(a, 9) == has_col(b, 9));
    assert(has_col(a, 10) == has_col(b, 10));
    assert(has_col(a, 11) == has_col(b, 11));
    assert(has_col(a, 12) == has_col(b, 12));
    assert(has_col(a, 13) == has_col(b, 13));
    assert(has_col(a, 14) == has_col(b, 14));
    assert(has_col(a, 15) == has_col(b, 15));
    assert(a == b) by (bit_vector)
        requires
        (a & (0x8000u16 >> 0u16) != 0) == (b & (0x8000u16 >> 0u16) != 0),
        (a & (0x8000u16 >> 1u16) != 0) == (b & (0x8000u16 >> 1u16) != 0),
        (a & (0x8000u16 >> 2u16) != 0) == (b & (0x8000u16 >> 2u16) != 0),
        (a & (0x8000u16 >> 3u16) != 0) == (b & (0x8000u16 >> 3u16) != 0),
        (a & (0x8000u16 >> 4u16) != 0) == (b & (0x8000u16 >> 4u16) != 0),
        (a & (0x8000u16 >> 5u16) != 0) == (b & (0x8000u16 >> 5u16) != 0),
        (a & (0x8000u16 >> 6u16) != 0) == (b & (0x8000u16 >> 6u16) != 0),
        (a & (0x8000u16 >> 7u16) != 0) == (b & (0x8000u16 >> 7u16) != 0),
        (a & (0x8000u16 >> 8u16) != 0) == (b & (0x8000u16 >> 8u16) != 0),
        (a & (0x8000u16 >> 9u16) != 0) == (b & (0x8000u16 >> 9u16) != 0),
        (a & (0x8000u16 >> 10u16) != 0) == (b & (0x8000u16 >> 10u16) != 0),
        (a & (0x8000u16 >> 11u16) != 0) == (b & (0x8000u16 >> 11u16) != 0),
        (a & (0x8000u16 >> 12u16) != 0) == (b & (0x8000u16 >> 12u16) != 0),
        (a & (0x8000u16 >> 13u16) != 0) == (b & (0x8000u16 >> 13u16) != 0),
        (a & (0x8000u16 >> 14u16) != 0) == (b & (0x8000u16 >> 14u16) != 0),
        (a & (0x8000u16 >> 15u16) != 0) == (b & (0x8000u16 >> 15u16) != 0),
    ;
}

/// Two masks that share no column share no bit.
proof fn lemma_disjoint_columns(a: u16, b: u16)
    requires
        forall|x: u32| x < 16 ==> !(#[trigger] has_col(a, x) && has_col(b, x)),
    ensures
        a & b == 0,
{
    assert(!(has_col(a, 0) && has_col(b, 0)));
    assert(!(has_col(a, 1) && has_col(b, 1)));
    assert(!(has_col(a, 2) && has_col(b, 2)));
    assert(!(has_col(a, 3) && has_col(b, 3)));
    assert(!(has_col(a, 4) && has_col(b, 4)));
    assert(!(has_col(a, 5) && has_col(b, 5)));
    assert(!(has_col(a, 6) && has_col(b, 6)));
    assert(!(has_col(a, 7) && has_col(b, 7)));
    assert(!(has_col(a, 8) && has_col(b, 8)));
    assert(!(has_col(a, 9) && has_col(b, 9)));
    assert(!(has_col(a, 10) && has_col(b, 10)));
    assert(!(has_col(a, 11) && has_col(b, 11)));
    assert(!(has_col(a, 12) && has_col(b, 12)));
    assert(!(has_col(a, 13) && has_col(b, 13)));
    assert(!(has_col(a, 14) && has_col(b, 14)));
    assert(!(has_col(a, 15) && has_col(b, 15)));
    assert(a & b == 0) by (bit_vector)
        requires
        !(a & (0x8000u16 >> 0u16) != 0 && b & (0x8000u16 >> 0u16) != 0),
        !(a & (0x8000u16 >> 1u16) != 0 && b & (0x8000u16 >> 1u16) != 0),
        !(a & (0x8000u16 >> 2u16) != 0 && b & (0x8000u16 >> 2u16) != 0),
        !(a & (0x8000u16 >> 3u16) != 0 && b & (0x8000u16 >> 3u16) != 0),
        !(a & (0x8000u16 >> 4u16) != 0 && b & (0x8000u16 >> 4u16) != 0),
        !(a & (0x8000u16 >> 5u16) != 0 && b & (0x8000u16 >> 5u16) != 0),
        !(a & (0x8000u16 >> 6u16) != 0 && b & (0x8000u16 >> 6u16) != 0),
        !(a & (0x8000u16 >> 7u16) != 0 && b & (0x8000u16 >> 7u16) != 0),
        !(a & (0x8000u16 >> 8u16) != 0 && b & (0x8000u16 >> 8u16) != 0),
        !(a & (0x8000u16 >> 9u16) != 0 && b & (0x8000u16 >> 9u16) != 0),
        !(a & (0x8000u16 >> 10u16) != 0 && b & (0x8000u16 >> 10u16) != 0),
        !(a & (0x8000u16 >> 11u16) != 0 && b & (0x8000u16 >> 11u16) != 0),
        !(a & (0x8000u16 >> 12u16) != 0 && b & (0x8000u16 >> 12u16) != 0),
        !(a & (0x8000u16 >> 13u16) != 0 && b & (0x8000u16 >> 13u16) != 0),
        !(a & (0x8000u16 >> 14u16) != 0 && b & (0x8000u16 >> 14u16) != 0),
        !(a & (0x8000u16 >> 15u16) != 0 && b & (0x8000u16 >> 15u16) != 0),
    ;
}

/// The icon patterns of a BMP file are determined by its bytes: any two
/// results built from the same bytes are identical.
pub proof fn lemma_deterministic(b: Seq<u8>, p1: BitsPatterns, p2: BitsPatterns)
    requires
        is_icon_of(b, p1),
        is_icon_of(b, p2),
    ensures
        p1.lights@ == p2.lights@,
        p1.half@ == p2.half@,
{
    assert(p1.lights@ =~= p2.lights@);
    assert(p1.half@ =~= p2.half@);
}

/// In a complete grid every pixel falls in exactly one class: a fully lit
/// pixel marks its column in the lights mask of its row and not in the
/// half-tone mask, a half-tone pixel the other way round, and a background
/// pixel in neither. No column of a row is marked in both masks.
pub proof fn lemma_classes_partition(s: Seq<Pixel>, bpp: u16, y: u32)
    requires
        is_valid_depth(bpp),
        is_full_grid(s),
        y < 16,
    ensures
        row_mask(s, bpp, y, PixelClass::FullLight) & row_mask(s, bpp, y, PixelClass::HalfTone) == 0,
        forall|i: int|
            0 <= i < s.len() && #[trigger] s[i].y == y ==> {
                &&& has_col(row_mask(s, bpp, y, PixelClass::FullLight), s[i].x) == (class_of(
                    s[i].color,
                    bpp,
                ) == PixelClass::FullLight)
                &&& has_col(row_mask(s, bpp, y, PixelClass::HalfTone), s[i].x) == (class_of(
                    s[i].color,
                    bpp,
                ) == PixelClass::HalfTone)
            },
{
    let lights = row_mask(s, bpp, y, PixelClass::FullLight);
    let half = row_mask(s, bpp, y, PixelClass::HalfTone);
    assert forall|x: u32| x < 16 implies !(#[trigger] has_col(lights, x) && has_col(half, x)) by {
        lemma_row_mask_column(s, bpp, y, PixelClass::FullLight, x);
        lemma_row_mask_column(s, bpp, y, PixelClass::HalfTone, x);
        if has_col(lights, x) && has_col(half, x) {
            let i = choose|i: int|
                0 <= i < s.len() && #[trigger] s[i].x == x && s[i].y == y && class_of(s[i].color, bpp)
                    == PixelClass::FullLight;
            let j = choose|j: int|
                0 <= j < s.len() && #[trigger] s[j].x == x && s[j].y == y && class_of(s[j].color, bpp)
                    == PixelClass::HalfTone;
            assert(i == j);
        }
    }
    lemma_disjoint_columns(lights, half);
    assert forall|i: int|
        0 <= i < s.len() && #[trigger] s[i].y == y implies {
            &&& has_col(lights, s[i].x) == (class_of(s[i].color, bpp) == PixelClass::FullLight)
            &&& has_col(half, s[i].x) == (class_of(s[i].color, bpp) == PixelClass::HalfTone)
        } by {
        assert(in_grid(s[i]));
        lemma_row_mask_column(s, bpp, y, PixelClass::FullLight, s[i].x);
        lemma_row_mask_column(s, bpp, y, PixelClass::HalfTone, s[i].x);
        if has_pixel_of_class(s, bpp, s[i].x, y, PixelClass::FullLight) {
            let j = choose|j: int|
                0 <= j < s.len() && #[trigger] s[j].x == s[i].x && s[j].y == y && class_of(
                    s[j].color,
                    bpp,
                ) == PixelClass::FullLight;
            assert(i == j);
        }
        if has_pixel_of_class(s, bpp, s[i].x, y, PixelClass::HalfTone) {
            let j = choose|j: int|
                0 <= j < s.len() && #[trigger] s[j].x == s[i].x && s[j].y == y && class_of(
                    s[j].color,
                    bpp,
                ) == PixelClass::HalfTone;
            assert(i == j);
        }
    }
}

/// The masks of row `y` depend only on which pixels lie in that row: two
/// pixel sequences holding the same pixels of row `y`, in any order and
/// whatever their other rows hold, give the same masks for row `y`.
pub proof fn lemma_row_independence(s1: Seq<Pixel>, s2: Seq<Pixel>, bpp: u16, y: u32)
    requires
        all_in_grid(s1),
        all_in_grid(s2),
        forall|p: Pixel| p.y == y ==> (s1.contains(p) <==> s2.contains(p)),
    ensures
        row_mask(s1, bpp, y, PixelClass::FullLight) == row_mask(s2, bpp, y, PixelClass::FullLight),
        row_mask(s1, bpp, y, PixelClass::HalfTone) == row_mask(s2, bpp, y, PixelClass::HalfTone),
{
    assert forall|c: PixelClass, x: u32| x < 16 implies #[trigger] has_pixel_of_class(s1, bpp, x, y, c)
        == has_pixel_of_class(s2, bpp, x, y, c) by {
        if has_pixel_of_class(s1, bpp, x, y, c) {
            let i = choose|i: int|
                0 <= i < s1.len() && #[trigger] s1[i].x == x && s1[i].y == y && class_of(
                    s1[i].color,
                    bpp,
                ) == c;
            assert(s1.contains(s1[i]));
            let j = choose|j: int| 0 <= j < s2.len() && s2[j] == s1[i];
            assert(s2[j].x == x);
        }
        if has_pixel_of_class(s2, bpp, x, y, c) {
            let i = choose|i: int|
                0 <= i < s2.len() && #[trigger] s2[i].x == x && s2[i].y == y && class_of(
                    s2[i].color,
                    bpp,
                ) == c;
            assert(s2.contains(s2[i]));
            let j = choose|j: int| 0 <= j < s1.len() && s1[j] == s2[i];
            assert(s1[j].x == x);
        }
    }
    assert forall|x: u32| x < 16 implies #[trigger] has_col(row_mask(s1, bpp, y, PixelClass::FullLight), x)
        == has_col(row_mask(s2, bpp, y, PixelClass::FullLight), x) by {
        lemma_row_mask_column(s1, bpp, y, PixelClass::FullLight, x);
        lemma_row_mask_column(s2, bpp, y, PixelClass::FullLight, x);
        assert(has_pixel_of_class(s1, bpp, x, y, PixelClass::FullLight) == has_pixel_of_class(s2, bpp, x, y, PixelClass::FullLight));
    }
    assert forall|x: u32| x < 16 implies #[trigger] has_col(row_mask(s1, bpp, y, PixelClass::HalfTone), x)
        == has_col(row_mask(s2, bpp, y, PixelClass::HalfTone), x) by {
        lemma_row_mask_column(s1, bpp, y, PixelClass::HalfTone, x);
        lemma_row_mask_column(s2, bpp, y, PixelClass::HalfTone, x);
        assert(has_pixel_of_class(s1, bpp, x, y, PixelClass::HalfTone) == has_pixel_of_class(s2, bpp, x, y, PixelClass::HalfTone));
    }
    lemma_same_columns(
        row_mask(s1, bpp, y, PixelClass::FullLight),
        row_mask(s2, bpp, y, PixelClass::FullLight),
    );
    lemma_same_columns(
        row_mask(s1, bpp, y, PixelClass::HalfTone),
        row_mask(s2, bpp, y, PixelClass::HalfTone),
    );
}

/// Classifying the pixels in another order gives the same masks in every
/// row: a permutation of the pixels changes no row mask.
pub proof fn lemma_order_irrelevant(s1: Seq<Pixel>, s2: Seq<Pixel>, bpp: u16, y: u32)
    requires
        all_in_grid(s1),
        s1.to_multiset() == s2.to_multiset(),
    ensures
        row_mask(s1, bpp, y, PixelClass::FullLight) == row_mask(s2, bpp, y, PixelClass::FullLight),
        row_mask(s1, bpp, y, PixelClass::HalfTone) == row_mask(s2, bpp, y, PixelClass::HalfTone),
{
    s1.to_multiset_ensures();
    s2.to_multiset_ensures();
    assert forall|i: int| 0 <= i < s2.len() implies #[trigger] in_grid(s2[i]) by {
        assert(s2.contains(s2[i]));
        assert(s2.to_multiset().count(s2[i]) > 0);
        assert(s1.contains(s2[i]));
        let j = choose|j: int| 0 <= j < s1.len() && s1[j] == s2[i];
        assert(in_grid(s1[j]));
    }
    assert forall|p: Pixel| p.y == y implies (s1.contains(p) <==> s2.contains(p)) by {
        assert(s1.contains(p) <==> s1.to_multiset().count(p) > 0);
        assert(s2.contains(p) <==> s2.to_multiset().count(p) > 0);
    }
    lemma_row_independence(s1, s2, bpp, y);
}

/// Raw color 1 is fully lit only at a depth of 8 bits; at 16, 24 and 32 bits
/// it is a half-tone.
pub proof fn lemma_unit_color_depth(bpp: u16)
    requires
        is_valid_depth(bpp),
    ensures
        (class_of(1, bpp) == PixelClass::FullLight) == (bpp == 8),
        bpp != 8 ==> class_of(1, bpp) == PixelClass::HalfTone,
{
}

} // verus!
