use vstd::prelude::*;
use vstd::arithmetic::div_mod::lemma_fundamental_div_mod_converse;
use vstd::arithmetic::mul::lemma_mul_is_distributive_add;
use vstd::arithmetic::mul::lemma_mul_inequality;

verus! {

/// Number of bytes of an RGB image of the given size.
pub open spec fn rgb_len(width: nat, height: nat) -> nat {
    height * width * 3
}

/// The byte of the source image that lands at byte `i` of the mirrored
/// image: same row, same channel, column `width - 1 - x`.
pub open spec fn mirror_index(width: int, i: int) -> int {
    let pixel = i / 3;
    let channel = i % 3;
    let y = pixel / width;
    let x = pixel % width;
    (y * width + (width - 1 - x)) * 3 + channel
}

/// An RGB image (3 bytes per pixel, rows stored one after the other)
/// mirrored left to right.
pub open spec fn flipped_rgb(data: Seq<u8>, width: nat, height: nat) -> Seq<u8> {
    Seq::new(rgb_len(width, height), |i: int| data[mirror_index(width as int, i)])
}

/// Byte `(y * width + x) * 3 + c` splits back into pixel row `y`,
/// column `x` and channel `c`.
pub proof fn lemma_rgb_position(width: int, y: int, x: int, c: int)
    requires
        width > 0,
        0 <= x < width,
        0 <= c < 3,
    ensures
        ((y * width + x) * 3 + c) / 3 == y * width + x,
        ((y * width + x) * 3 + c) % 3 == c,
        (y * width + x) / width == y,
        (y * width + x) % width == x,
{
    lemma_fundamental_div_mod_converse((y * width + x) * 3 + c, 3, y * width + x, c);
    lemma_fundamental_div_mod_converse(y * width + x, width, y, x);
}

/// Every byte index of the mirrored image reads a byte of the source image,
/// and the mirrored byte of `(y * width + x) * 3 + c` is
/// `(y * width + width - 1 - x) * 3 + c`.
pub proof fn lemma_mirror_index(width: int, height: int, y: int, x: int, c: int)
    requires
        width > 0,
        0 <= y < height,
        0 <= x < width,
        0 <= c < 3,
    ensures
        mirror_index(width, (y * width + x) * 3 + c) == (y * width + (width - 1 - x)) * 3 + c,
        0 <= (y * width + x) * 3 + c < height * width * 3,
        0 <= (y * width + (width - 1 - x)) * 3 + c < height * width * 3,
{
    lemma_rgb_position(width, y, x, c);
    lemma_row_bound(width, height, y, x);
    lemma_row_bound(width, height, y, width - 1 - x);
}

proof fn lemma_row_bound(width: int, height: int, y: int, x: int)
    requires
        width > 0,
        0 <= y < height,
        0 <= x < width,
    ensures
        0 <= y * width + x < height * width,
{
    lemma_mul_inequality(y + 1, height, width);
    lemma_mul_is_distributive_add(width, y, 1);
    assert(0 <= y * width) by (nonlinear_arith)
        requires
            0 <= y,
            0 < width,
    ;
    assert((y + 1) * width == y * width + width) by (nonlinear_arith);
}

/// Byte `i` of an image of the given size belongs to pixel row
/// `(i / 3) / width`, column `(i / 3) % width` and channel `i % 3`.
proof fn lemma_split_index(width: int, height: int, i: int)
    requires
        width > 0,
        0 <= i < height * width * 3,
    ensures
        0 <= (i / 3) / width < height,
        0 <= (i / 3) % width < width,
        0 <= i % 3 < 3,
        i == (((i / 3) / width) * width + (i / 3) % width) * 3 + i % 3,
{
    let p = i / 3;
    assert(i == p * 3 + i % 3 && 0 <= i % 3 < 3) by (nonlinear_arith)
        requires
            p == i / 3,
            0 <= i,
    ;
    assert(p == (p / width) * width + p % width && 0 <= p % width < width) by (nonlinear_arith)
        requires
            width > 0,
    ;
    assert(0 <= p < height * width) by (nonlinear_arith)
        requires
            p == i / 3,
            0 <= i < height * width * 3,
    ;
    assert(0 <= p / width < height) by (nonlinear_arith)
        requires
            0 <= p < height * width,
            width > 0,
    ;
}

/// Mirrors an RGB image left to right, the way a selfie preview shows it.
///
/// `data` holds `height` rows of `width` pixels of 3 bytes each; bytes past
/// that are not read.
pub fn flip_rgb_horizontal(data: &[u8], width: u32, height: u32) -> (flipped: Vec<u8>)
    requires
        data@.len() >= rgb_len(width as nat, height as nat),
        width as int * 3 <= usize::MAX,
    ensures
        flipped@ == flipped_rgb(data@, width as nat, height as nat),
{
    let mut flipped: Vec<u8> = Vec::with_capacity(data.len());
    let width_usize = width as usize;
    let row_size = width_usize * 3;
    let ghost w = width as int;
    let ghost h = height as int;
    let height_usize = height as usize;
    let data_len = data.len();

    let mut y: usize = 0;
    while y < height_usize
        invariant
            w == width_usize,
            h == height_usize,
            row_size == w * 3,
            data@.len() >= h * w * 3,
            data_len == data@.len(),
            0 <= y <= h,
            flipped@.len() == y * w * 3,
            forall|i: int| 0 <= i < flipped@.len() ==> #[trigger] flipped@[i] == data@[mirror_index(w, i)],
        decreases h - y,
    {
        proof {
            assert((y + 1) * w * 3 <= h * w * 3) by (nonlinear_arith)
                requires
                    y + 1 <= h,
                    w >= 0,
            ;
            assert((y + 1) * w * 3 == y * w * 3 + w * 3) by (nonlinear_arith);
            assert(y * row_size == y * w * 3) by (nonlinear_arith)
                requires
                    row_size == w * 3,
            ;
        }
        let row_start = y * row_size;
        let mut remaining: usize = width_usize;
        while remaining > 0
            invariant
                w == width_usize,
                h == height_usize,
                row_size == w * 3,
                row_start == y * w * 3,
                data@.len() >= h * w * 3,
                data_len == data@.len(),
                0 <= y < h,
                (y + 1) * w * 3 <= h * w * 3,
                0 <= remaining <= w,
                flipped@.len() == y * w * 3 + (w - remaining) * 3,
                forall|i: int| 0 <= i < flipped@.len() ==> #[trigger] flipped@[i] == data@[mirror_index(w, i)],
            decreases remaining,
        {
            let x = remaining - 1;
            let ghost k = w - 1 - x;
            proof {
                lemma_mirror_index(w, h, y as int, k, 0);
                lemma_mirror_index(w, h, y as int, k, 1);
                lemma_mirror_index(w, h, y as int, k, 2);
                assert(y * w * 3 + (w - remaining) * 3 == (y * w + k) * 3) by (nonlinear_arith)
                    requires
                        k == w - remaining,
                ;
                assert(row_start + x * 3 == (y * w + x) * 3) by (nonlinear_arith)
                    requires
                        row_start == y * w * 3,
                ;
                assert(w - 1 - k == x);
            }
            let pixel_start = row_start + (x * 3);
            flipped.push(data[pixel_start]);
            flipped.push(data[pixel_start + 1]);
            flipped.push(data[pixel_start + 2]);
            remaining = x;
        }
        y = y + 1;
    }
    proof {
        assert(flipped@.len() == rgb_len(width as nat, height as nat)) by (nonlinear_arith)
            requires
                flipped@.len() == h * w * 3,
                y == h,
                h == height,
                w == width,
        ;
    }
    assert(flipped@ =~= flipped_rgb(data@, width as nat, height as nat));
    flipped
}

/// Mirroring a whole image twice gives the image back.
pub proof fn lemma_flip_twice(data: Seq<u8>, width: nat, height: nat)
    requires
        data.len() == rgb_len(width, height),
    ensures
        flipped_rgb(flipped_rgb(data, width, height), width, height) == data,
{
    let once = flipped_rgb(data, width, height);
    let twice = flipped_rgb(once, width, height);
    let w = width as int;
    let h = height as int;
    assert forall|i: int| 0 <= i < twice.len() implies #[trigger] twice[i] == data[i] by {
        if w > 0 {
            lemma_split_index(w, h, i);
            let y = (i / 3) / w;
            let x = (i / 3) % w;
            let c = i % 3;
            lemma_mirror_index(w, h, y, x, c);
            lemma_mirror_index(w, h, y, w - 1 - x, c);
        } else {
            assert(h * w * 3 == 0) by (nonlinear_arith)
                requires
                    w == 0,
            ;
        }
    }
    assert(twice =~= data);
}

/// Rows are mirrored independently and keep their vertical order: the
/// mirror of `h1` rows followed by `h2` rows is the mirror of the first
/// `h1` rows followed by the mirror of the next `h2` rows.
pub proof fn lemma_flip_rows_split(a: Seq<u8>, b: Seq<u8>, width: nat, h1: nat, h2: nat)
    requires
        a.len() == rgb_len(width, h1),
        b.len() >= rgb_len(width, h2),
    ensures
        flipped_rgb(a + b, width, h1 + h2) == flipped_rgb(a, width, h1) + flipped_rgb(
            b,
            width,
            h2,
        ),
{
    let w = width as int;
    let whole = flipped_rgb(a + b, width, h1 + h2);
    let top = flipped_rgb(a, width, h1);
    let bottom = flipped_rgb(b, width, h2);
    let l1 = h1 * w * 3;
    assert((h1 + h2) * w * 3 == h1 * w * 3 + h2 * w * 3) by (nonlinear_arith);
    if w == 0 {
        assert(h1 * w * 3 == 0 && h2 * w * 3 == 0 && (h1 + h2) * w * 3 == 0) by (nonlinear_arith)
            requires
                w == 0,
        ;
        assert(whole =~= top + bottom);
    } else {
        assert forall|i: int| 0 <= i < whole.len() implies #[trigger] whole[i] == (top + bottom)[i] by {
            if i < l1 {
                lemma_split_index(w, h1 as int, i);
                let y = (i / 3) / w;
                let x = (i / 3) % w;
                let c = i % 3;
                lemma_mirror_index(w, h1 as int, y, x, c);
                lemma_mirror_index(w, (h1 + h2) as int, y, x, c);
            } else {
                let j = i - l1;
                lemma_split_index(w, h2 as int, j);
                let y = (j / 3) / w;
                let x = (j / 3) % w;
                let c = j % 3;
                lemma_mirror_index(w, h2 as int, y, x, c);
                lemma_mirror_index(w, (h1 + h2) as int, y + h1, x, c);
                assert(((y + h1) * w + x) * 3 + c == l1 + (y * w + x) * 3 + c) by (nonlinear_arith)
                    requires
                        l1 == h1 * w * 3,
                ;
                assert(((y + h1) * w + (w - 1 - x)) * 3 + c == l1 + (y * w + (w - 1 - x)) * 3 + c)
                    by (nonlinear_arith)
                    requires
                        l1 == h1 * w * 3,
                ;
            }
        }
        assert(whole =~= top + bottom);
    }
}

} // verus!