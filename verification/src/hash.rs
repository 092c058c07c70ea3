//! Directional gradient hashing: the horizontal and vertical difference
//! hashes of a comparison grid, and their concatenation into the full
//! fingerprint.
//!
//! Both hashes sweep the whole grid once — the horizontal hash row by row,
//! the vertical hash column by column — carrying the previously sampled
//! intensity across the sweep, and emit one bit for every sampled pixel
//! that does not open a sweep line: 1 if the intensity strictly increased
//! from the previous sample, 0 otherwise (ties and decreases both give 0).
//! Each hash therefore holds (WIDTH - 1) * HEIGHT = 64 bits.
//!
//! The full fingerprint is the horizontal hash followed by the vertical
//! hash, 128 bits in all: that bit layout is this library's fixed contract.

use vstd::prelude::*;
use vstd::arithmetic::div_mod::lemma_fundamental_div_mod_converse;
use crate::grid::NormalizedImage;
use crate::grid::WIDTH;
use crate::grid::HEIGHT;
use crate::source::normalize;
use crate::source::normalized_of;

verus! {

/// 1 when the intensity strictly increased from `prev` to `cur`, else 0.
pub open spec fn gradient_bit(prev: u8, cur: u8) -> u8 {
    if prev < cur {
        1u8
    } else {
        0u8
    }
}

/// Bit `i` of the horizontal hash of the row-major grid `g`: the grid is
/// swept row by row, and within row `i / 8` this bit compares the pixel in
/// column `i % 8` with its right neighbour.
pub open spec fn horizontal_bit(g: Seq<u8>, i: int) -> u8 {
    let y = i / 8;
    let x = i % 8 + 1;
    gradient_bit(g[y * 9 + x - 1], g[y * 9 + x])
}

/// The 64 bits of the horizontal hash of the row-major grid `g`.
pub open spec fn horizontal_bits(g: Seq<u8>) -> Seq<u8> {
    Seq::new(64, |i: int| horizontal_bit(g, i))
}

/// Bit `i` of the vertical hash of the row-major grid `g`: the grid is
/// swept column by column, the first column emits no bits, and within
/// column `i / 8 + 1` this bit compares the pixel in row `i % 8` with the
/// sample before it in sweep order — the pixel above it, or, at the top of
/// the column, the bottom pixel of the column to its left.
pub open spec fn vertical_bit(g: Seq<u8>, i: int) -> u8 {
    let x = i / 8 + 1;
    let y = i % 8;
    let prev = if y == 0 {
        g[7 * 9 + x - 1]
    } else {
        g[(y - 1) * 9 + x]
    };
    gradient_bit(prev, g[y * 9 + x])
}

/// The 64 bits of the vertical hash of the row-major grid `g`.
pub open spec fn vertical_bits(g: Seq<u8>) -> Seq<u8> {
    Seq::new(64, |i: int| vertical_bit(g, i))
}

/// The 128-bit fingerprint of the row-major grid `g`: its horizontal hash
/// followed by its vertical hash.
pub open spec fn fingerprint_bits(g: Seq<u8>) -> Seq<u8> {
    horizontal_bits(g) + vertical_bits(g)
}

/// The horizontal difference hash of the grid, one `u8` per bit.
pub fn horizontal_hash(img: &NormalizedImage) -> (r: Vec<u8>)
    requires
        img.wf(),
    ensures
        r@ == horizontal_bits(img@),
{
    let mut previous_value: u8 = 0;
    let mut hash: Vec<u8> = Vec::new();
    for y in 0..HEIGHT
        invariant
            img.wf(),
            hash@.len() == 8 * y,
            hash@ == horizontal_bits(img@).take(8 * y),
            previous_value == (if y == 0 {
                0u8
            } else {
                img@[9 * y - 1]
            }),
    {
        for x in 0..WIDTH
            invariant
                img.wf(),
                y < 8,
                hash@.len() == 8 * y + (if x == 0 {
                    0int
                } else {
                    x - 1
                }),
                hash@ == horizontal_bits(img@).take(hash@.len() as int),
                previous_value == (if x > 0 {
                    img@[9 * y + x - 1]
                } else if y > 0 {
                    img@[9 * y - 1]
                } else {
                    0u8
                }),
        {
            let current_value = img.pixel(x, y);
            if x > 0 {
                let bit: u8 = if previous_value < current_value {
                    1
                } else {
                    0
                };
                hash.push(bit);
                proof {
                    let g = img@;
                    let n = 8 * y + x - 1;
                    lemma_fundamental_div_mod_converse(n, 8, y as int, x - 1);
                    assert(horizontal_bits(g)[n] == bit);
                    assert(hash@ =~= horizontal_bits(g).take(n + 1));
                }
            }
            previous_value = current_value;
        }
    }
    proof {
        assert(horizontal_bits(img@).take(64) =~= horizontal_bits(img@));
    }
    hash
}

/// The vertical difference hash of the grid, one `u8` per bit.
pub fn vertical_hash(img: &NormalizedImage) -> (r: Vec<u8>)
    requires
        img.wf(),
    ensures
        r@ == vertical_bits(img@),
{
    let mut previous_value: u8 = 0;
    let mut hash: Vec<u8> = Vec::new();
    for x in 0..WIDTH
        invariant
            img.wf(),
            hash@.len() == (if x == 0 {
                0int
            } else {
                8 * (x - 1)
            }),
            hash@ == vertical_bits(img@).take(hash@.len() as int),
            previous_value == (if x == 0 {
                0u8
            } else {
                img@[63 + x - 1]
            }),
    {
        for y in 0..HEIGHT
            invariant
                img.wf(),
                x < 9,
                hash@.len() == (if x == 0 {
                    0int
                } else {
                    8 * (x - 1) + y
                }),
                hash@ == vertical_bits(img@).take(hash@.len() as int),
                previous_value == (if y > 0 {
                    img@[9 * (y - 1) + x]
                } else if x > 0 {
                    img@[63 + x - 1]
                } else {
                    0u8
                }),
        {
            let current_value = img.pixel(x, y);
            if x > 0 {
                let bit: u8 = if previous_value < current_value {
                    1
                } else {
                    0
                };
                hash.push(bit);
                proof {
                    let g = img@;
                    let n = 8 * (x - 1) + y;
                    lemma_fundamental_div_mod_converse(n, 8, x - 1, y as int);
                    assert(vertical_bits(g)[n] == bit);
                    assert(hash@ =~= vertical_bits(g).take(n + 1));
                }
            }
            previous_value = current_value;
        }
    }
    proof {
        assert(vertical_bits(img@).take(64) =~= vertical_bits(img@));
    }
    hash
}

/// The full fingerprint of a comparison grid: the horizontal hash followed
/// by the vertical hash, 128 bits in all.
pub fn get_image_hash(img: &NormalizedImage) -> (r: Vec<u8>)
    requires
        img.wf(),
    ensures
        r@ == fingerprint_bits(img@),
        r@.len() == 128,
{
    let mut hash = horizontal_hash(img);
    let mut v = vertical_hash(img);
    hash.append(&mut v);
    hash
}

/// Fingerprint a source image of any size: reduce it to the comparison
/// grid, then hash the grid along both axes.
pub fn compute_fingerprint(img: &image::DynamicImage) -> (r: Vec<u8>)
    ensures
        r@ == fingerprint_bits(normalized_of(*img)),
        r@.len() == 128,
{
    let reduced = normalize(img);
    get_image_hash(&reduced)
}

/// A fingerprint is a function of the source image alone: two fingerprints
/// computed from the same image are identical.
pub proof fn lemma_fingerprint_deterministic(
    img: image::DynamicImage,
    r1: Seq<u8>,
    r2: Seq<u8>,
)
    requires
        r1 == fingerprint_bits(normalized_of(img)),
        r2 == fingerprint_bits(normalized_of(img)),
    ensures
        r1 == r2,
{
}

/// Two horizontally adjacent pixels of identical intensity yield bit 0 at
/// the corresponding position of the horizontal hash.
pub proof fn lemma_tie_gives_zero_horizontal(g: Seq<u8>, x: int, y: int)
    requires
        g.len() == 72,
        1 <= x < 9,
        0 <= y < 8,
        g[y * 9 + x - 1] == g[y * 9 + x],
    ensures
        horizontal_bits(g)[y * 8 + x - 1] == 0,
{
    lemma_fundamental_div_mod_converse(y * 8 + x - 1, 8, y, x - 1);
}

/// Two vertically adjacent pixels of identical intensity yield bit 0 at
/// the corresponding position of the vertical hash.
pub proof fn lemma_tie_gives_zero_vertical(g: Seq<u8>, x: int, y: int)
    requires
        g.len() == 72,
        1 <= x < 9,
        1 <= y < 8,
        g[(y - 1) * 9 + x] == g[y * 9 + x],
    ensures
        vertical_bits(g)[(x - 1) * 8 + y] == 0,
{
    lemma_fundamental_div_mod_converse((x - 1) * 8 + y, 8, x - 1, y);
}

} // verus!
