//! Adaptive local thresholding of a grey image.
//!
//! A pixel turns white when it is brighter than the mean of the window around
//! it, and black otherwise. The window reaches `radius` pixels in each
//! direction and is cut off at the image's edges. The sums over the windows
//! are read from a summed-area table, so the cost per pixel does not depend
//! on the radius.

use vstd::prelude::*;
use vstd::arithmetic::div_mod::lemma_fundamental_div_mod_converse;

verus! {

/// The value of a white pixel.
pub const WHITE: u8 = 255;

/// The value of a black pixel.
pub const BLACK: u8 = 0;

/// The pixel in column `x` of row `y`, in an image stored row by row.
pub open spec fn pixel(img: Seq<u8>, width: int, x: int, y: int) -> int {
    img[y * width + x] as int
}

/// Sum of the pixels of row `y` in the columns `x0 <= x < x1`.
pub open spec fn row_sum(img: Seq<u8>, width: int, y: int, x0: int, x1: int) -> int
    decreases x1 - x0,
{
    if x1 <= x0 {
        0
    } else {
        row_sum(img, width, y, x0, x1 - 1) + pixel(img, width, x1 - 1, y)
    }
}

/// Sum of the pixels in the columns `x0 <= x < x1` of the rows `y0 <= y < y1`.
pub open spec fn box_sum(img: Seq<u8>, width: int, x0: int, x1: int, y0: int, y1: int) -> int
    decreases y1 - y0,
{
    if y1 <= y0 {
        0
    } else {
        box_sum(img, width, x0, x1, y0, y1 - 1) + row_sum(img, width, y1 - 1, x0, x1)
    }
}

/// First coordinate of the window around `c`.
pub open spec fn window_low(c: int, radius: int) -> int {
    if c - radius < 0 {
        0
    } else {
        c - radius
    }
}

/// One past the last coordinate of the window around `c`, on an axis of `size` pixels.
pub open spec fn window_high(c: int, radius: int, size: int) -> int {
    if c + radius + 1 > size {
        size
    } else {
        c + radius + 1
    }
}

/// The binarised value of the pixel at `(x, y)`: white when the pixel,
/// multiplied by the number of pixels in its window, exceeds their sum.
pub open spec fn threshold_at(
    img: Seq<u8>,
    width: int,
    height: int,
    radius: int,
    x: int,
    y: int,
) -> u8 {
    let x0 = window_low(x, radius);
    let x1 = window_high(x, radius, width);
    let y0 = window_low(y, radius);
    let y1 = window_high(y, radius, height);
    if pixel(img, width, x, y) * ((x1 - x0) * (y1 - y0)) > box_sum(img, width, x0, x1, y0, y1) {
        WHITE
    } else {
        BLACK
    }
}

/// The binarised image: as many pixels as `img`, each the [`threshold_at`] of
/// its place.
pub open spec fn thresholded(img: Seq<u8>, width: int, height: int, radius: int) -> Seq<u8> {
    Seq::new(img.len(), |i: int| threshold_at(img, width, height, radius, i % width, i / width))
}

/// Whether the summed-area table of a `width` by `height` image can be
/// indexed and summed on every machine.
pub open spec fn table_fits(width: int, height: int) -> bool {
    (width + 1) * (height + 1) <= u32::MAX
}

/// An image whose table fits has sides and an area that fit as well.
proof fn lemma_table_fits(width: int, height: int)
    requires
        0 <= width,
        0 <= height,
        table_fits(width, height),
    ensures
        width + 1 <= u32::MAX,
        height + 1 <= u32::MAX,
        width * height <= (width + 1) * (height + 1),
        width * height == height * width,
{
    assert(width + 1 <= (width + 1) * (height + 1) && height + 1 <= (width + 1) * (height + 1)
        && width * height <= (width + 1) * (height + 1) && width * height == height * width)
        by (nonlinear_arith)
        requires
            0 <= width,
            0 <= height,
    ;
}

/// A place inside a `w` by `h` grid has its index inside the grid's storage.
proof fn lemma_index(x: int, y: int, w: int, h: int)
    requires
        0 <= x < w,
        0 <= y < h,
    ensures
        0 <= y * w + x < w * h,
        y * w + x < (y + 1) * w,
        (y + 1) * w <= h * w,
        y * w >= 0,
{
    assert(y * w + x < w * h && (y + 1) * w <= h * w && y * w >= 0 && y * w + x < (y + 1) * w)
        by (nonlinear_arith)
        requires
            0 <= x < w,
            0 <= y < h,
    ;
}

/// Rows do not overlap: an index of a lower row is below every index of a higher one.
proof fn lemma_rows_apart(x: int, y: int, y2: int, w: int)
    requires
        0 <= x < w,
        0 <= y < y2,
    ensures
        y * w + x < y2 * w,
{
    assert(y * w + x < y2 * w) by (nonlinear_arith)
        requires
            0 <= x < w,
            0 <= y < y2,
    ;
}

/// A row sum lies between zero and 255 times its length.
proof fn lemma_row_sum_bounds(img: Seq<u8>, width: int, y: int, x0: int, x1: int)
    requires
        x0 <= x1,
    ensures
        0 <= row_sum(img, width, y, x0, x1) <= 255 * (x1 - x0),
    decreases x1 - x0,
{
    if x1 > x0 {
        lemma_row_sum_bounds(img, width, y, x0, x1 - 1);
    }
}

/// A box sum lies between zero and 255 times its area.
proof fn lemma_box_sum_bounds(img: Seq<u8>, width: int, x0: int, x1: int, y0: int, y1: int)
    requires
        x0 <= x1,
        y0 <= y1,
    ensures
        0 <= box_sum(img, width, x0, x1, y0, y1) <= 255 * ((x1 - x0) * (y1 - y0)),
    decreases y1 - y0,
{
    if y1 > y0 {
        lemma_box_sum_bounds(img, width, x0, x1, y0, y1 - 1);
        lemma_row_sum_bounds(img, width, y1 - 1, x0, x1);
        assert((x1 - x0) * (y1 - y0) == (x1 - x0) * (y1 - 1 - y0) + (x1 - x0))
            by (nonlinear_arith);
    } else {
        assert((x1 - x0) * (y1 - y0) == 0) by (nonlinear_arith)
            requires
                y1 - y0 == 0,
        ;
    }
}

/// A box without columns sums to zero.
proof fn lemma_box_sum_empty(img: Seq<u8>, width: int, x: int, y0: int, y1: int)
    ensures
        box_sum(img, width, x, x, y0, y1) == 0,
    decreases y1 - y0,
{
    if y1 > y0 {
        lemma_box_sum_empty(img, width, x, y0, y1 - 1);
    }
}

/// A row sum splits at any column in between.
proof fn lemma_row_sum_split(img: Seq<u8>, width: int, y: int, x0: int, xm: int, x1: int)
    requires
        x0 <= xm <= x1,
    ensures
        row_sum(img, width, y, x0, x1) == row_sum(img, width, y, x0, xm) + row_sum(
            img,
            width,
            y,
            xm,
            x1,
        ),
    decreases x1 - xm,
{
    if x1 > xm {
        lemma_row_sum_split(img, width, y, x0, xm, x1 - 1);
    }
}

/// A box sum splits at any column in between.
proof fn lemma_box_sum_split_columns(
    img: Seq<u8>,
    width: int,
    x0: int,
    xm: int,
    x1: int,
    y0: int,
    y1: int,
)
    requires
        x0 <= xm <= x1,
    ensures
        box_sum(img, width, x0, x1, y0, y1) == box_sum(img, width, x0, xm, y0, y1) + box_sum(
            img,
            width,
            xm,
            x1,
            y0,
            y1,
        ),
    decreases y1 - y0,
{
    if y1 > y0 {
        lemma_box_sum_split_columns(img, width, x0, xm, x1, y0, y1 - 1);
        lemma_row_sum_split(img, width, y1 - 1, x0, xm, x1);
    }
}

/// A box sum splits at any row in between.
proof fn lemma_box_sum_split_rows(
    img: Seq<u8>,
    width: int,
    x0: int,
    x1: int,
    y0: int,
    ym: int,
    y1: int,
)
    requires
        y0 <= ym <= y1,
    ensures
        box_sum(img, width, x0, x1, y0, y1) == box_sum(img, width, x0, x1, y0, ym) + box_sum(
            img,
            width,
            x0,
            x1,
            ym,
            y1,
        ),
    decreases y1 - ym,
{
    if y1 > ym {
        lemma_box_sum_split_rows(img, width, x0, x1, y0, ym, y1 - 1);
    }
}

/// The sum over a window from four entries of the summed-area table.
pub proof fn lemma_box_sum_from_corners(
    img: Seq<u8>,
    width: int,
    x0: int,
    x1: int,
    y0: int,
    y1: int,
)
    requires
        0 <= x0 <= x1,
        0 <= y0 <= y1,
    ensures
        box_sum(img, width, x0, x1, y0, y1) == box_sum(img, width, 0, x1, 0, y1) + box_sum(
            img,
            width,
            0,
            x0,
            0,
            y0,
        ) - box_sum(img, width, 0, x1, 0, y0) - box_sum(img, width, 0, x0, 0, y1),
{
    lemma_box_sum_split_rows(img, width, 0, x1, 0, y0, y1);
    lemma_box_sum_split_rows(img, width, 0, x0, 0, y0, y1);
    lemma_box_sum_split_columns(img, width, 0, x0, x1, y0, y1);
}

/// Builds the summed-area table of an image: the entry in column `x` of row
/// `y` is the sum of the pixels to the left of `x` and above `y`.
fn summed_area_table(pixels: &Vec<u8>, width: usize, height: usize) -> (table: Vec<u64>)
    requires
        pixels.len() == width * height,
        table_fits(width as int, height as int),
    ensures
        table.len() == (width + 1) * (height + 1),
        forall|x: int, y: int|
            0 <= x <= width && 0 <= y <= height ==> table[y * (width + 1) + x] == #[trigger] box_sum(
                pixels@,
                width as int,
                0,
                x,
                0,
                y,
            ),
{
    proof {
        lemma_table_fits(width as int, height as int);
    }
    let stride: usize = width + 1;
    proof {
        lemma_index(0, height as int, stride as int, height + 1);
        assert(stride * (height + 1) == (width + 1) * (height + 1)) by (nonlinear_arith)
            requires
                stride == width + 1,
        ;
    }
    let total: usize = stride * (height + 1);
    let ghost img = pixels@;
    let ghost w = width as int;
    let mut table: Vec<u64> = Vec::new();
    let mut k: usize = 0;
    while k < total
        invariant
            k <= total,
            table.len() == k,
            forall|j: int| 0 <= j < k ==> table[j] == 0,
        decreases total - k,
    {
        table.push(0);
        k += 1;
    }
    assert forall|x: int, y: int| 0 <= x <= width && 0 <= y <= 0 implies table[y * (width + 1) + x]
        == #[trigger] box_sum(img, w, 0, x, 0, y) by {
        lemma_index(x, 0, stride as int, height + 1);
    }
    let mut y: usize = 0;
    while y < height
        invariant
            y <= height,
            stride == width + 1,
            total == stride * (height + 1),
            table.len() == total,
            img == pixels@,
            w == width,
            pixels.len() == width * height,
            table_fits(width as int, height as int),
            forall|x: int, yy: int|
                0 <= x <= width && 0 <= yy <= y ==> table[yy * (width + 1) + x]
                    == #[trigger] box_sum(img, w, 0, x, 0, yy),
        decreases height - y,
    {
        proof {
            lemma_index(0, y as int + 1, stride as int, height + 1);
            lemma_index(0, y as int, stride as int, height + 1);
        }
        let below: usize = (y + 1) * stride;
        let above: usize = y * stride;
        table.set(below, 0);
        proof {
            lemma_box_sum_empty(img, w, 0, 0, y as int + 1);
            assert forall|x: int, yy: int| 0 <= x <= width && 0 <= yy <= y implies table[yy * (
                width + 1) + x] == #[trigger] box_sum(img, w, 0, x, 0, yy) by {
                lemma_rows_apart(x, yy, y as int + 1, stride as int);
                lemma_index(x, yy, stride as int, height + 1);
            }
        }
        let mut run: u64 = 0;
        let mut x: usize = 0;
        while x < width
            invariant
                x <= width,
                y < height,
                stride == width + 1,
                total == stride * (height + 1),
                below == (y + 1) * stride,
                above == y * stride,
                table.len() == total,
                img == pixels@,
                w == width,
                pixels.len() == width * height,
                table_fits(width as int, height as int),
                run == row_sum(img, w, y as int, 0, x as int),
                forall|xx: int, yy: int|
                    0 <= xx <= width && 0 <= yy <= y ==> table[yy * (width + 1) + xx]
                        == #[trigger] box_sum(img, w, 0, xx, 0, yy),
                forall|xx: int|
                    0 <= xx <= x ==> table[(y + 1) * (width + 1) + xx] == #[trigger] box_sum(
                        img,
                        w,
                        0,
                        xx,
                        0,
                        y + 1,
                    ),
            decreases width - x,
        {
            proof {
                lemma_index(x as int, y as int, w, height as int);
                lemma_index(x as int + 1, y as int, stride as int, height + 1);
                lemma_index(x as int + 1, y as int + 1, stride as int, height + 1);
                lemma_row_sum_bounds(img, w, y as int, 0, x as int);
                lemma_box_sum_bounds(img, w, 0, x as int + 1, 0, y as int);
                lemma_index(x as int, y as int, stride as int, height + 1);
                assert(255 * (x * 1) <= 255 * total && 255 * ((x + 1) * y) <= 255 * total)
                    by (nonlinear_arith)
                    requires
                        0 <= x < width,
                        0 <= y < height,
                        total == (width + 1) * (height + 1),
                ;
            }
            run = run + pixels[y * width + x] as u64;
            let upper: u64 = table[above + x + 1];
            table.set(below + x + 1, upper + run);
            proof {
                let target = (y + 1) * (width + 1) + (x + 1);
                assert forall|xx: int, yy: int| 0 <= xx <= width && 0 <= yy <= y implies table[yy
                    * (width + 1) + xx] == #[trigger] box_sum(img, w, 0, xx, 0, yy) by {
                    lemma_rows_apart(xx, yy, y as int + 1, stride as int);
                    lemma_index(xx, yy, stride as int, height + 1);
                }
                assert forall|xx: int| 0 <= xx <= x + 1 implies table[(y + 1) * (width + 1) + xx]
                    == #[trigger] box_sum(img, w, 0, xx, 0, y + 1) by {
                    lemma_index(xx, y as int + 1, stride as int, height + 1);
                }
            }
            x += 1;
        }
        y += 1;
    }
    table
}

/// Binarises a grey image of `width` by `height` pixels, stored row by row.
///
/// The result has the dimensions of the input, and each of its pixels is
/// white or black as [`threshold_at`] says.
pub fn adaptive_threshold(pixels: &Vec<u8>, width: usize, height: usize, radius: usize) -> (out:
    Vec<u8>)
    requires
        pixels.len() == width * height,
        table_fits(width as int, height as int),
    ensures
        out.len() == pixels.len(),
        out@ == thresholded(pixels@, width as int, height as int, radius as int),
{
    let table = summed_area_table(pixels, width, height);
    proof {
        lemma_table_fits(width as int, height as int);
    }
    let stride: usize = width + 1;
    let ghost img = pixels@;
    let ghost w = width as int;
    let ghost h = height as int;
    let ghost r = radius as int;
    let mut out: Vec<u8> = Vec::new();
    let mut y: usize = 0;
    proof {
        assert(0 * width == 0) by (nonlinear_arith);
    }
    while y < height
        invariant
            y <= height,
            stride == width + 1,
            img == pixels@,
            w == width,
            h == height,
            r == radius,
            pixels.len() == width * height,
            table_fits(w, h),
            table.len() == (width + 1) * (height + 1),
            forall|xx: int, yy: int|
                0 <= xx <= width && 0 <= yy <= height ==> table[yy * (width + 1) + xx]
                    == #[trigger] box_sum(img, w, 0, xx, 0, yy),
            out.len() == y * width,
            forall|i: int| 0 <= i < out.len() ==> out[i] == threshold_at(img, w, h, r, i % w, i / w),
        decreases height - y,
    {
        let y0: usize = if radius > y {
            0
        } else {
            y - radius
        };
        let y1: usize = if radius >= height - 1 - y {
            height
        } else {
            y + radius + 1
        };
        let mut x: usize = 0;
        while x < width
            invariant
                x <= width,
                y < height,
                stride == width + 1,
                img == pixels@,
                w == width,
                h == height,
                r == radius,
                y0 == window_low(y as int, r),
                y1 == window_high(y as int, r, h),
                pixels.len() == width * height,
                table_fits(w, h),
                table.len() == (width + 1) * (height + 1),
                forall|xx: int, yy: int|
                    0 <= xx <= width && 0 <= yy <= height ==> table[yy * (width + 1) + xx]
                        == #[trigger] box_sum(img, w, 0, xx, 0, yy),
                out.len() == y * width + x,
                forall|i: int|
                    0 <= i < out.len() ==> out[i] == threshold_at(img, w, h, r, i % w, i / w),
            decreases width - x,
        {
            let x0: usize = if radius > x {
                0
            } else {
                x - radius
            };
            let x1: usize = if radius >= width - 1 - x {
                width
            } else {
                x + radius + 1
            };
            proof {
                lemma_index(x as int, y as int, w, h);
                lemma_index(x0 as int, y0 as int, stride as int, h + 1);
                lemma_index(x1 as int, y0 as int, stride as int, h + 1);
                lemma_index(x0 as int, y1 as int, stride as int, h + 1);
                lemma_index(x1 as int, y1 as int, stride as int, h + 1);
                lemma_box_sum_from_corners(img, w, x0 as int, x1 as int, y0 as int, y1 as int);
                lemma_box_sum_bounds(img, w, 0, x1 as int, 0, y1 as int);
                lemma_box_sum_bounds(img, w, 0, x0 as int, 0, y0 as int);
                lemma_box_sum_bounds(img, w, 0, x1 as int, 0, y0 as int);
                lemma_box_sum_bounds(img, w, 0, x0 as int, 0, y1 as int);
                assert(0 <= (x1 - x0) * (y1 - y0) <= (width + 1) * (height + 1))
                    by (nonlinear_arith)
                    requires
                        0 <= x0 <= x1 <= width,
                        0 <= y0 <= y1 <= height,
                ;
                lemma_fundamental_div_mod_converse(y * width + x, w, y as int, x as int);
            }
            let a: i128 = table[y1 * stride + x1] as i128;
            let b: i128 = table[y0 * stride + x0] as i128;
            let c: i128 = table[y0 * stride + x1] as i128;
            let d: i128 = table[y1 * stride + x0] as i128;
            let sum: i128 = a + b - c - d;
            let count: u64 = (x1 - x0) as u64 * (y1 - y0) as u64;
            let center: u64 = pixels[y * width + x] as u64;
            assert(center * count <= 255 * count) by (nonlinear_arith)
                requires
                    0 <= center <= 255,
                    0 <= count,
            ;
            let value: u8 = if (center * count) as i128 > sum {
                WHITE
            } else {
                BLACK
            };
            assert(value == threshold_at(img, w, h, r, x as int, y as int));
            out.push(value);
            x += 1;
        }
        proof {
            assert(y * width + width == (y + 1) * width) by (nonlinear_arith);
        }
        y += 1;
    }
    proof {
        lemma_table_fits(w, h);
        assert(out@ =~= thresholded(img, w, h, r));
    }
    out
}

/// Thresholding keeps the number of pixels, and every pixel of the result is
/// black or white.
pub proof fn lemma_thresholded_shape(img: Seq<u8>, width: int, height: int, radius: int)
    ensures
        thresholded(img, width, height, radius).len() == img.len(),
        forall|i: int|
            0 <= i < img.len() ==> {
                let p = #[trigger] thresholded(img, width, height, radius)[i];
                p == BLACK || p == WHITE
            },
{
}

/// A pixel that is no brighter than every pixel of its window turns black:
/// in particular, an image of one colour turns black everywhere.
pub proof fn lemma_darkest_is_black(
    img: Seq<u8>,
    width: int,
    height: int,
    radius: int,
    x: int,
    y: int,
)
    requires
        0 <= radius,
        0 <= x < width,
        0 <= y < height,
        img.len() == width * height,
        forall|xx: int, yy: int|
            window_low(x, radius) <= xx < window_high(x, radius, width) && window_low(y, radius)
                <= yy < window_high(y, radius, height) ==> pixel(img, width, x, y) <= #[trigger] pixel(
                img,
                width,
                xx,
                yy,
            ),
    ensures
        threshold_at(img, width, height, radius, x, y) == BLACK,
{
    let x0 = window_low(x, radius);
    let x1 = window_high(x, radius, width);
    let y0 = window_low(y, radius);
    let y1 = window_high(y, radius, height);
    lemma_box_sum_at_least(img, width, x0, x1, y0, y1, y0, y1, pixel(img, width, x, y));
}

/// A row of pixels that are each at least `floor` sums to at least `floor`
/// times its length.
proof fn lemma_row_sum_at_least(
    img: Seq<u8>,
    width: int,
    y: int,
    x0: int,
    x1: int,
    lo: int,
    floor: int,
)
    requires
        lo <= x0 <= x1,
        forall|xx: int| lo <= xx < x1 ==> floor <= #[trigger] pixel(img, width, xx, y),
    ensures
        row_sum(img, width, y, x0, x1) >= floor * (x1 - x0),
    decreases x1 - x0,
{
    if x1 > x0 {
        lemma_row_sum_at_least(img, width, y, x0, x1 - 1, lo, floor);
        assert(floor * (x1 - x0) == floor * (x1 - 1 - x0) + floor) by (nonlinear_arith);
    } else {
        assert(floor * (x1 - x0) == 0) by (nonlinear_arith)
            requires
                x1 - x0 == 0,
        ;
    }
}

/// A box of pixels that are each at least `floor` sums to at least `floor`
/// times its area.
proof fn lemma_box_sum_at_least(
    img: Seq<u8>,
    width: int,
    x0: int,
    x1: int,
    y0: int,
    y1: int,
    lo: int,
    hi: int,
    floor: int,
)
    requires
        x0 <= x1,
        lo <= y0 <= y1 <= hi,
        forall|xx: int, yy: int|
            x0 <= xx < x1 && lo <= yy < hi ==> floor <= #[trigger] pixel(img, width, xx, yy),
    ensures
        box_sum(img, width, x0, x1, y0, y1) >= floor * ((x1 - x0) * (y1 - y0)),
    decreases y1 - y0,
{
    if y1 > y0 {
        lemma_box_sum_at_least(img, width, x0, x1, y0, y1 - 1, lo, hi, floor);
        lemma_row_sum_at_least(img, width, y1 - 1, x0, x1, x0, floor);
        assert(floor * ((x1 - x0) * (y1 - y0)) == floor * ((x1 - x0) * (y1 - 1 - y0)) + floor * (x1
            - x0)) by (nonlinear_arith);
    } else {
        assert(floor * ((x1 - x0) * (y1 - y0)) == 0) by (nonlinear_arith)
            requires
                y1 - y0 == 0,
        ;
    }
}

} // verus!
