//! Redaction effects on RGBA buffers: mosaic and box blur over a region.
//!
//! A region is given by its first and past-the-end columns and rows, already
//! clamped to the buffer; bytes outside it are never touched.

use crate::pixels::{
    column_of, in_region, lemma_coordinates_offset, lemma_offset_coordinates, pixel_offset, row_of,
};
use vstd::arithmetic::div_mod::{
    lemma_div_by_multiple, lemma_div_is_ordered, lemma_fundamental_div_mod,
    lemma_fundamental_div_mod_converse, lemma_mod_pos_bound,
};
use vstd::prelude::*;

verus! {

/// Sum of channel `c` over the pixels of row `y` from column `x0` to `x1`
/// (end excluded).
pub open spec fn row_channel_sum(src: Seq<u8>, width: int, c: int, y: int, x0: int, x1: int) -> int
    decreases x1 - x0,
{
    if x1 <= x0 {
        0
    } else {
        row_channel_sum(src, width, c, y, x0, x1 - 1) + src[pixel_offset(width, x1 - 1, y) + c]
    }
}

/// Sum of channel `c` over the block of columns `x0..x1` and rows `y0..y1`.
pub open spec fn block_channel_sum(
    src: Seq<u8>,
    width: int,
    c: int,
    x0: int,
    x1: int,
    y0: int,
    y1: int,
) -> int
    decreases y1 - y0,
{
    if y1 <= y0 {
        0
    } else {
        block_channel_sum(src, width, c, x0, x1, y0, y1 - 1) + row_channel_sum(
            src,
            width,
            c,
            y1 - 1,
            x0,
            x1,
        )
    }
}

/// Which block, counted from `origin` in steps of `size`, the coordinate `v`
/// falls in.
pub open spec fn block_index(origin: int, size: int, v: int) -> int {
    (v - origin) / size
}

/// The first coordinate of the block that `v` falls in.
pub open spec fn block_first(origin: int, size: int, v: int) -> int {
    origin + block_index(origin, size, v) * size
}

/// The past-the-end coordinate of the block that `v` falls in: a block is
/// cut short at `limit`.
pub open spec fn block_end(origin: int, size: int, limit: int, v: int) -> int {
    let end = block_first(origin, size, v) + size;
    if end < limit {
        end
    } else {
        limit
    }
}

/// Channel `c` of pixel `(x, y)` after the mosaic: that channel's average,
/// rounded down, over the block of the region that the pixel falls in.
pub open spec fn mosaic_channel(
    src: Seq<u8>,
    width: int,
    left: int,
    top: int,
    right: int,
    bottom: int,
    size: int,
    x: int,
    y: int,
    c: int,
) -> int {
    let x0 = block_first(left, size, x);
    let x1 = block_end(left, size, right, x);
    let y0 = block_first(top, size, y);
    let y1 = block_end(top, size, bottom, y);
    block_channel_sum(src, width, c, x0, x1, y0, y1) / ((x1 - x0) * (y1 - y0))
}

/// The buffer after a mosaic of `size`-pixel blocks over the region: blocks
/// are laid from the region's top-left corner; each region byte becomes its
/// block's average, every other byte stays.
pub open spec fn mosaicked(
    src: Seq<u8>,
    width: int,
    left: int,
    top: int,
    right: int,
    bottom: int,
    size: int,
) -> Seq<u8> {
    Seq::new(
        src.len(),
        |i: int|
            if in_region(width, left, top, right, bottom, i) {
                mosaic_channel(
                    src,
                    width,
                    left,
                    top,
                    right,
                    bottom,
                    size,
                    column_of(width, i),
                    row_of(width, i),
                    i % 4,
                ) as u8
            } else {
                src[i]
            },
    )
}

/// The value that `values` gives channel `c`.
pub open spec fn pick4(values: (u8, u8, u8, u8), c: int) -> u8 {
    if c == 0 {
        values.0
    } else if c == 1 {
        values.1
    } else if c == 2 {
        values.2
    } else {
        values.3
    }
}

/// `src` with every pixel of the region set to `values`.
pub open spec fn filled(
    src: Seq<u8>,
    width: int,
    left: int,
    top: int,
    right: int,
    bottom: int,
    values: (u8, u8, u8, u8),
) -> Seq<u8> {
    Seq::new(
        src.len(),
        |i: int|
            if in_region(width, left, top, right, bottom, i) {
                pick4(values, i % 4)
            } else {
                src[i]
            },
    )
}

/// A region whose last pixel is inside a buffer of `len` bytes.
pub open spec fn region_fits(width: int, right: int, bottom: int, len: int) -> bool {
    pixel_offset(width, right - 1, bottom - 1) + 4 <= len
}

proof fn lemma_row_sum_bounds(src: Seq<u8>, width: int, c: int, y: int, x0: int, x1: int)
    requires
        x0 <= x1,
    ensures
        0 <= row_channel_sum(src, width, c, y, x0, x1) <= 255 * (x1 - x0),
    decreases x1 - x0,
{
    if x0 < x1 {
        lemma_row_sum_bounds(src, width, c, y, x0, x1 - 1);
    }
}

proof fn lemma_block_sum_bounds(
    src: Seq<u8>,
    width: int,
    c: int,
    x0: int,
    x1: int,
    y0: int,
    y1: int,
)
    requires
        x0 <= x1,
        y0 <= y1,
    ensures
        0 <= block_channel_sum(src, width, c, x0, x1, y0, y1) <= 255 * ((x1 - x0) * (y1 - y0)),
    decreases y1 - y0,
{
    if y0 < y1 {
        lemma_block_sum_bounds(src, width, c, x0, x1, y0, y1 - 1);
        lemma_row_sum_bounds(src, width, c, y1 - 1, x0, x1);
        assert((x1 - x0) * (y1 - 1 - y0) + (x1 - x0) == (x1 - x0) * (y1 - y0)) by (nonlinear_arith);
    } else {
        assert((x1 - x0) * (y1 - y0) == 0) by (nonlinear_arith)
            requires
                y1 == y0,
        ;
    }
}

proof fn lemma_row_sum_agree(a: Seq<u8>, b: Seq<u8>, width: int, c: int, y: int, x0: int, x1: int)
    requires
        forall|x: int|
            x0 <= x < x1 ==> a[#[trigger] pixel_offset(width, x, y) + c] == b[pixel_offset(
                width,
                x,
                y,
            ) + c],
    ensures
        row_channel_sum(a, width, c, y, x0, x1) == row_channel_sum(b, width, c, y, x0, x1),
    decreases x1 - x0,
{
    if x0 < x1 {
        lemma_row_sum_agree(a, b, width, c, y, x0, x1 - 1);
    }
}

proof fn lemma_block_sum_agree(
    a: Seq<u8>,
    b: Seq<u8>,
    width: int,
    c: int,
    x0: int,
    x1: int,
    y0: int,
    y1: int,
)
    requires
        forall|x: int, y: int|
            x0 <= x < x1 && y0 <= y < y1 ==> a[#[trigger] pixel_offset(width, x, y) + c]
                == b[pixel_offset(width, x, y) + c],
    ensures
        block_channel_sum(a, width, c, x0, x1, y0, y1) == block_channel_sum(
            b,
            width,
            c,
            x0,
            x1,
            y0,
            y1,
        ),
    decreases y1 - y0,
{
    if y0 < y1 {
        lemma_block_sum_agree(a, b, width, c, x0, x1, y0, y1 - 1);
        assert forall|x: int| x0 <= x < x1 implies a[#[trigger] pixel_offset(width, x, y1 - 1) + c]
            == b[pixel_offset(width, x, y1 - 1) + c] by {}
        lemma_row_sum_agree(a, b, width, c, y1 - 1, x0, x1);
    }
}

/// A coordinate inside the `k`-th block falls in that block.
proof fn lemma_block_of(origin: int, size: int, k: int, v: int)
    requires
        0 < size,
        origin + k * size <= v < origin + k * size + size,
    ensures
        block_index(origin, size, v) == k,
{
    lemma_fundamental_div_mod_converse(v - origin, size, k, v - origin - k * size);
}

/// A coordinate at or after `origin` lies within its block.
proof fn lemma_block_bounds(origin: int, size: int, v: int)
    requires
        0 < size,
        origin <= v,
    ensures
        0 <= block_index(origin, size, v),
        origin + block_index(origin, size, v) * size <= v < origin + block_index(origin, size, v)
            * size + size,
{
    let d = v - origin;
    lemma_fundamental_div_mod(d, size);
    lemma_mod_pos_bound(d, size);
    let q = d / size;
    assert(d == q * size + d % size) by (nonlinear_arith)
        requires
            d == size * q + d % size,
    ;
    if q < 0 {
        assert(q * size <= -size) by (nonlinear_arith)
            requires
                q <= -1,
                0 < size,
        ;
    }
}

/// `a <= 255 * b` makes `a / b` fit in a byte.
proof fn lemma_average_fits(a: int, b: int)
    requires
        0 <= a <= 255 * b,
        0 < b,
    ensures
        0 <= a / b <= 255,
{
    lemma_div_is_ordered(a, 255 * b, b);
    lemma_div_is_ordered(0, a, b);
    lemma_div_by_multiple(255, b);
}

/// A pixel neither right of nor below another lies no further into the
/// buffer.
proof fn lemma_offsets_ordered(width: int, x0: int, y0: int, x1: int, y1: int)
    requires
        0 <= width,
        x0 <= x1,
        y0 <= y1,
    ensures
        pixel_offset(width, x0, y0) <= pixel_offset(width, x1, y1),
{
    assert(y0 * width <= y1 * width) by (nonlinear_arith)
        requires
            y0 <= y1,
            0 <= width,
    ;
}

/// Sum of channel `c` over row `y` from column `x0` to `x1`.
fn row_sum(pixels: &Vec<u8>, width: u64, c: u64, y: u64, x0: u64, x1: u64) -> (s: u128)
    requires
        c < 4,
        x0 <= x1 <= width <= u32::MAX,
        y <= u32::MAX,
        x0 < x1 ==> pixel_offset(width as int, x1 - 1, y as int) + 4 <= pixels@.len(),
    ensures
        s == row_channel_sum(pixels@, width as int, c as int, y as int, x0 as int, x1 as int),
{
    let mut s: u128 = 0;
    let mut x: u64 = x0;
    while x < x1
        invariant
            c < 4,
            x0 <= x <= x1 <= width <= u32::MAX,
            y <= u32::MAX,
            x0 < x1 ==> pixel_offset(width as int, x1 - 1, y as int) + 4 <= pixels@.len(),
            s == row_channel_sum(pixels@, width as int, c as int, y as int, x0 as int, x as int),
        decreases x1 - x,
    {
        proof {
            lemma_row_sum_bounds(pixels@, width as int, c as int, y as int, x0 as int, x as int);
            lemma_offsets_ordered(width as int, x as int, y as int, x1 - 1, y as int);
            assert(pixels@.len() == pixels.len());
            assert(pixel_offset(width as int, x as int, y as int) + c < pixels@.len());
            assert(y * width + x <= 0xffff_ffff_ffff_ffff) by (nonlinear_arith)
                requires
                    y <= 0xffff_ffff,
                    width <= 0xffff_ffff,
                    x <= width,
            ;
        }
        let index = ((y * width + x) * 4 + c) as usize;
        s = s + pixels[index] as u128;
        x = x + 1;
    }
    s
}

/// Sum of channel `c` over the block of columns `x0..x1` and rows `y0..y1`.
fn block_sum(pixels: &Vec<u8>, width: u64, c: u64, x0: u64, x1: u64, y0: u64, y1: u64) -> (s:
    u128)
    requires
        c < 4,
        x0 <= x1 <= width <= u32::MAX,
        y0 <= y1 <= u32::MAX,
        x0 < x1 && y0 < y1 ==> region_fits(width as int, x1 as int, y1 as int, pixels@.len() as int),
    ensures
        s == block_channel_sum(
            pixels@,
            width as int,
            c as int,
            x0 as int,
            x1 as int,
            y0 as int,
            y1 as int,
        ),
{
    let mut s: u128 = 0;
    let mut y: u64 = y0;
    while y < y1
        invariant
            c < 4,
            x0 <= x1 <= width <= u32::MAX,
            y0 <= y <= y1 <= u32::MAX,
            x0 < x1 && y0 < y1 ==> region_fits(
                width as int,
                x1 as int,
                y1 as int,
                pixels@.len() as int,
            ),
            s == block_channel_sum(
                pixels@,
                width as int,
                c as int,
                x0 as int,
                x1 as int,
                y0 as int,
                y as int,
            ),
        decreases y1 - y,
    {
        proof {
            lemma_block_sum_bounds(
                pixels@,
                width as int,
                c as int,
                x0 as int,
                x1 as int,
                y0 as int,
                y as int,
            );
            lemma_row_sum_bounds(pixels@, width as int, c as int, y as int, x0 as int, x1 as int);
            if x0 < x1 {
                lemma_offsets_ordered(width as int, x1 - 1, y as int, x1 - 1, y1 - 1);
            }
            assert((x1 - x0) * (y - y0) <= 0x1_0000_0000_0000_0000) by (nonlinear_arith)
                requires
                    x1 - x0 <= 0x1_0000_0000,
                    y - y0 <= 0x1_0000_0000,
                    0 <= x1 - x0,
                    0 <= y - y0,
            ;
        }
        let row = row_sum(pixels, width, c, y, x0, x1);
        s = s + row;
        y = y + 1;
    }
    s
}

/// Byte `i` belongs to a pixel that comes before pixel `(x, y)` in reading
/// order.
spec fn filled_before(width: int, x: int, y: int, i: int) -> bool {
    row_of(width, i) < y || (row_of(width, i) == y && column_of(width, i) < x)
}

/// `src` with the region's pixels before `(x, y)` set to `values`.
spec fn fill_progress(
    src: Seq<u8>,
    width: int,
    left: int,
    top: int,
    right: int,
    bottom: int,
    values: (u8, u8, u8, u8),
    x: int,
    y: int,
) -> Seq<u8> {
    Seq::new(
        src.len(),
        |i: int|
            if in_region(width, left, top, right, bottom, i) && filled_before(width, x, y, i) {
                pick4(values, i % 4)
            } else {
                src[i]
            },
    )
}

/// Sets every pixel of the region to `values`.
fn fill_region(
    pixels: &mut Vec<u8>,
    width: u64,
    left: u64,
    top: u64,
    right: u64,
    bottom: u64,
    values: (u8, u8, u8, u8),
)
    requires
        left <= right <= width <= u32::MAX,
        top <= bottom <= u32::MAX,
        left < right && top < bottom ==> region_fits(
            width as int,
            right as int,
            bottom as int,
            old(pixels)@.len() as int,
        ),
    ensures
        final(pixels)@ == filled(
            old(pixels)@,
            width as int,
            left as int,
            top as int,
            right as int,
            bottom as int,
            values,
        ),
{
    let ghost src = pixels@;
    let ghost w = width as int;
    if left == right {
        assert(pixels@ =~= filled(src, w, left as int, top as int, right as int, bottom as int, values));
        return;
    }
    let mut y: u64 = top;
    assert(pixels@ =~= fill_progress(
        src,
        w,
        left as int,
        top as int,
        right as int,
        bottom as int,
        values,
        left as int,
        top as int,
    ));
    while y < bottom
        invariant
            left < right <= width <= u32::MAX,
            top <= y <= bottom <= u32::MAX,
            w == width,
            src.len() == pixels@.len(),
            top < bottom ==> region_fits(w, right as int, bottom as int, src.len() as int),
            pixels@ == fill_progress(
                src,
                w,
                left as int,
                top as int,
                right as int,
                bottom as int,
                values,
                left as int,
                y as int,
            ),
        decreases bottom - y,
    {
        let mut x: u64 = left;
        while x < right
            invariant
                left <= x <= right <= width <= u32::MAX,
                left < right,
                top <= y < bottom <= u32::MAX,
                w == width,
                src.len() == pixels@.len(),
                region_fits(w, right as int, bottom as int, src.len() as int),
                pixels@ == fill_progress(
                    src,
                    w,
                    left as int,
                    top as int,
                    right as int,
                    bottom as int,
                    values,
                    x as int,
                    y as int,
                ),
            decreases right - x,
        {
            proof {
                lemma_offsets_ordered(w, x as int, y as int, right - 1, bottom - 1);
                assert(y * width + x <= 0xffff_ffff_ffff_ffff) by (nonlinear_arith)
                    requires
                        y <= 0xffff_ffff,
                        width <= 0xffff_ffff,
                        x <= width,
                ;
                assert(pixels@.len() == pixels.len());
                assert(pixel_offset(w, x as int, y as int) + 4 <= pixels@.len());
            }
            let base = ((y * width + x) * 4) as usize;
            let ghost before = pixels@;
            pixels.set(base, values.0);
            pixels.set(base + 1, values.1);
            pixels.set(base + 2, values.2);
            pixels.set(base + 3, values.3);
            proof {
                let next = fill_progress(
                    src,
                    w,
                    left as int,
                    top as int,
                    right as int,
                    bottom as int,
                    values,
                    x + 1,
                    y as int,
                );
                assert forall|i: int| 0 <= i < pixels@.len() implies pixels@[i] == next[i] by {
                    if base <= i < base + 4 {
                        lemma_offset_coordinates(w, x as int, y as int, i - base);
                    } else {
                        lemma_coordinates_offset(w, i);
                    }
                }
                assert(pixels@ =~= next);
            }
            x = x + 1;
        }
        proof {
            let next = fill_progress(
                src,
                w,
                left as int,
                top as int,
                right as int,
                bottom as int,
                values,
                left as int,
                y + 1,
            );
            assert(pixels@ =~= next);
        }
        y = y + 1;
    }
    assert(pixels@ =~= filled(src, w, left as int, top as int, right as int, bottom as int, values));
}

/// Byte `i` belongs to a pixel whose block comes before block `(kx, ky)` in
/// reading order of blocks.
spec fn mosaic_done(width: int, left: int, top: int, size: int, kx: int, ky: int, i: int) -> bool {
    let bx = block_index(left, size, column_of(width, i));
    let by = block_index(top, size, row_of(width, i));
    by < ky || (by == ky && bx < kx)
}

/// `src` with the blocks before block `(kx, ky)` replaced by their average.
spec fn mosaic_progress(
    src: Seq<u8>,
    width: int,
    left: int,
    top: int,
    right: int,
    bottom: int,
    size: int,
    kx: int,
    ky: int,
) -> Seq<u8> {
    Seq::new(
        src.len(),
        |i: int|
            if in_region(width, left, top, right, bottom, i) && mosaic_done(
                width,
                left,
                top,
                size,
                kx,
                ky,
                i,
            ) {
                mosaic_channel(
                    src,
                    width,
                    left,
                    top,
                    right,
                    bottom,
                    size,
                    column_of(width, i),
                    row_of(width, i),
                    i % 4,
                ) as u8
            } else {
                src[i]
            },
    )
}

/// Average of channel `c` over a block, rounded down.
fn block_average(pixels: &Vec<u8>, width: u64, c: u64, x0: u64, x1: u64, y0: u64, y1: u64) -> (a:
    u8)
    requires
        c < 4,
        x0 < x1 <= width <= u32::MAX,
        y0 < y1 <= u32::MAX,
        region_fits(width as int, x1 as int, y1 as int, pixels@.len() as int),
    ensures
        a == block_channel_sum(
            pixels@,
            width as int,
            c as int,
            x0 as int,
            x1 as int,
            y0 as int,
            y1 as int,
        ) / ((x1 - x0) * (y1 - y0)),
{
    let sum = block_sum(pixels, width, c, x0, x1, y0, y1);
    proof {
        assert((x1 - x0) * (y1 - y0) <= 0x1_0000_0000_0000_0000) by (nonlinear_arith)
            requires
                x1 - x0 <= 0x1_0000_0000,
                y1 - y0 <= 0x1_0000_0000,
                0 <= x1 - x0,
                0 <= y1 - y0,
        ;
    }
    let count = ((x1 - x0) as u128) * ((y1 - y0) as u128);
    proof {
        assert(0 < (x1 - x0) * (y1 - y0)) by (nonlinear_arith)
            requires
                0 < x1 - x0,
                0 < y1 - y0,
        ;
        lemma_block_sum_bounds(
            pixels@,
            width as int,
            c as int,
            x0 as int,
            x1 as int,
            y0 as int,
            y1 as int,
        );
        lemma_average_fits(sum as int, count as int);
    }
    (sum / count) as u8
}

/// Replaces each `block_size`-pixel block of the region, laid from its
/// top-left corner and cut short at its right and bottom edges, by the
/// block's average color.
pub fn apply_mosaic(
    pixels: &mut Vec<u8>,
    width: u32,
    left: u32,
    top: u32,
    right: u32,
    bottom: u32,
    block_size: u32,
)
    requires
        0 < block_size,
        left <= right <= width,
        top <= bottom,
        left < right && top < bottom ==> region_fits(
            width as int,
            right as int,
            bottom as int,
            old(pixels)@.len() as int,
        ),
    ensures
        final(pixels)@ == mosaicked(
            old(pixels)@,
            width as int,
            left as int,
            top as int,
            right as int,
            bottom as int,
            block_size as int,
        ),
{
    let ghost src = pixels@;
    let ghost w = width as int;
    let ghost l = left as int;
    let ghost t = top as int;
    let ghost r = right as int;
    let ghost b = bottom as int;
    let ghost size = block_size as int;
    if left == right || top == bottom {
        assert(pixels@ =~= mosaicked(src, w, l, t, r, b, size));
        return;
    }
    let wide = width as u64;
    let step = block_size as u64;
    let mut block_y: u64 = top as u64;
    let ghost mut ky: int = 0;
    assert(pixels@ =~= mosaic_progress(src, w, l, t, r, b, size, 0, 0)) by {
        assert forall|i: int| 0 <= i < src.len() && #[trigger] in_region(w, l, t, r, b, i) implies !mosaic_done(w, l, t, size, 0, 0, i) by {
            lemma_block_bounds(l, size, column_of(w, i));
            lemma_block_bounds(t, size, row_of(w, i));
        }
    }
    while block_y < bottom as u64
        invariant
            0 < size == step == block_size,
            l < r <= w == wide == width,
            t < b == bottom,
            l == left,
            t == top,
            r == right,
            region_fits(w, r, b, src.len() as int),
            0 <= ky,
            block_y == t + ky * size,
            block_y < b ==> block_y <= u32::MAX,
            pixels@.len() == src.len(),
            pixels@ == mosaic_progress(src, w, l, t, r, b, size, 0, ky),
        decreases b + size - block_y,
    {
        let end_y = if block_y + step < bottom as u64 {
            block_y + step
        } else {
            bottom as u64
        };
        let mut block_x: u64 = left as u64;
        let ghost mut kx: int = 0;
        while block_x < right as u64
            invariant
                0 < size == step == block_size,
                l < r <= w == wide == width,
                t < b == bottom,
                l == left,
                t == top,
                r == right,
                region_fits(w, r, b, src.len() as int),
                0 <= ky,
                block_y == t + ky * size,
                block_y < b,
                end_y == (if block_y + size < b {
                    block_y + size
                } else {
                    b
                }),
                0 <= kx,
                block_x == l + kx * size,
                block_x < r ==> block_x <= u32::MAX,
                pixels@.len() == src.len(),
                pixels@ == mosaic_progress(src, w, l, t, r, b, size, kx, ky),
            decreases r + size - block_x,
        {
            let end_x = if block_x + step < right as u64 {
                block_x + step
            } else {
                right as u64
            };
            let ghost before = pixels@;
            proof {
                lemma_offsets_ordered(w, end_x - 1, end_y - 1, r - 1, b - 1);
                // The current block is still untouched.
                assert forall|x: int, y: int, c: int|
                    block_x <= x < end_x && block_y <= y < end_y && 0 <= c < 4 implies #[trigger] before[pixel_offset(w, x, y) + c]
                        == src[pixel_offset(w, x, y) + c] by {
                    lemma_offset_coordinates(w, x, y, c);
                    lemma_offsets_ordered(w, x, y, r - 1, b - 1);
                    lemma_offsets_ordered(w, 0, 0, x, y);
                    lemma_block_of(l, size, kx, x);
                    lemma_block_of(t, size, ky, y);
                }
                assert forall|c: int|
                    0 <= c < 4 implies block_channel_sum(
                        before,
                        w,
                        c,
                        block_x as int,
                        end_x as int,
                        block_y as int,
                        end_y as int,
                    ) == #[trigger] block_channel_sum(
                        src,
                        w,
                        c,
                        block_x as int,
                        end_x as int,
                        block_y as int,
                        end_y as int,
                    ) by {
                    assert forall|x: int, y: int|
                        block_x <= x < end_x && block_y <= y < end_y implies #[trigger] before[pixel_offset(w, x, y) + c]
                            == src[pixel_offset(w, x, y) + c] by {}
                    lemma_block_sum_agree(
                        before,
                        src,
                        w,
                        c,
                        block_x as int,
                        end_x as int,
                        block_y as int,
                        end_y as int,
                    );
                }
            }
            let a0 = block_average(pixels, wide, 0, block_x, end_x, block_y, end_y);
            let a1 = block_average(pixels, wide, 1, block_x, end_x, block_y, end_y);
            let a2 = block_average(pixels, wide, 2, block_x, end_x, block_y, end_y);
            let a3 = block_average(pixels, wide, 3, block_x, end_x, block_y, end_y);
            let values = (a0, a1, a2, a3);
            fill_region(pixels, wide, block_x, block_y, end_x, end_y, values);
            proof {
                let next = mosaic_progress(src, w, l, t, r, b, size, kx + 1, ky);
                assert forall|i: int| 0 <= i < src.len() implies pixels@[i] == next[i] by {
                    let x = column_of(w, i);
                    let y = row_of(w, i);
                    if in_region(w, block_x as int, block_y as int, end_x as int, end_y as int, i) {
                        lemma_block_of(l, size, kx, x);
                        lemma_block_of(t, size, ky, y);
                        let c = i % 4;
                        lemma_coordinates_offset(w, i);
                        assert(0 <= c < 4);
                        assert(block_channel_sum(
                            before,
                            w,
                            c,
                            block_x as int,
                            end_x as int,
                            block_y as int,
                            end_y as int,
                        ) == block_channel_sum(
                            src,
                            w,
                            c,
                            block_x as int,
                            end_x as int,
                            block_y as int,
                            end_y as int,
                        ));
                    } else if in_region(w, l, t, r, b, i) {
                        lemma_block_bounds(l, size, x);
                        lemma_block_bounds(t, size, y);
                    }
                }
                assert(pixels@ =~= next);
            }
            block_x = block_x + step;
            proof {
                kx = kx + 1;
                assert(block_x == l + kx * size) by (nonlinear_arith)
                    requires
                        block_x == l + (kx - 1) * size + size,
                ;
            }
        }
        proof {
            let next = mosaic_progress(src, w, l, t, r, b, size, 0, ky + 1);
            assert forall|i: int| 0 <= i < src.len() implies pixels@[i] == next[i] by {
                if in_region(w, l, t, r, b, i) {
                    let x = column_of(w, i);
                    let bx = block_index(l, size, x);
                    lemma_block_bounds(l, size, x);
                    lemma_block_bounds(t, size, row_of(w, i));
                    assert(bx < kx) by (nonlinear_arith)
                        requires
                            l + bx * size <= x,
                            x < l + kx * size,
                            0 < size,
                    ;
                }
            }
            assert(pixels@ =~= next);
        }
        block_y = block_y + step;
        proof {
            ky = ky + 1;
            assert(block_y == t + ky * size) by (nonlinear_arith)
                requires
                    block_y == t + (ky - 1) * size + size,
            ;
        }
    }
    proof {
        let goal = mosaicked(src, w, l, t, r, b, size);
        assert forall|i: int| 0 <= i < src.len() implies pixels@[i] == goal[i] by {
            if in_region(w, l, t, r, b, i) {
                let y = row_of(w, i);
                let by = block_index(t, size, y);
                lemma_block_bounds(t, size, y);
                assert(by < ky) by (nonlinear_arith)
                    requires
                        t + by * size <= y,
                        y < t + ky * size,
                        0 < size,
                ;
            }
        }
        assert(pixels@ =~= goal);
    }
}

/// Two pixels of the region in the same block get the same value in each
/// channel.
pub proof fn mosaic_block_is_uniform(
    src: Seq<u8>,
    width: int,
    left: int,
    top: int,
    right: int,
    bottom: int,
    size: int,
    x1: int,
    y1: int,
    x2: int,
    y2: int,
    c: int,
)
    requires
        block_index(left, size, x1) == block_index(left, size, x2),
        block_index(top, size, y1) == block_index(top, size, y2),
    ensures
        mosaic_channel(src, width, left, top, right, bottom, size, x1, y1, c) == mosaic_channel(
            src,
            width,
            left,
            top,
            right,
            bottom,
            size,
            x2,
            y2,
            c,
        ),
{
}

/// Sum of the bytes at positions `k0..k1` of the line that starts at byte
/// `base` and advances `step` bytes per position.
pub open spec fn line_sum(src: Seq<u8>, base: int, step: int, k0: int, k1: int) -> int
    decreases k1 - k0,
{
    if k1 <= k0 {
        0
    } else {
        line_sum(src, base, step, k0, k1 - 1) + src[base + (k1 - 1) * step]
    }
}

/// First position of the window of `radius` positions around position `k`.
pub open spec fn window_start(k: int, radius: int) -> int {
    if k >= radius {
        k - radius
    } else {
        0
    }
}

/// Past-the-end position of the window of `radius` positions around
/// position `k`, on a line of `n` positions.
pub open spec fn window_end(k: int, radius: int, n: int) -> int {
    if k + radius + 1 < n {
        k + radius + 1
    } else {
        n
    }
}

/// The average, rounded down, of the window of `radius` positions around
/// position `k` of a line of `n` positions.
pub open spec fn window_average(src: Seq<u8>, base: int, step: int, n: int, radius: int, k: int) -> int {
    let start = window_start(k, radius);
    let end = window_end(k, radius, n);
    line_sum(src, base, step, start, end) / (end - start)
}

/// Byte `i` is at one of the positions `0..n` of the line that starts at
/// byte `base` and advances `step` bytes per position.
pub open spec fn on_line(base: int, step: int, n: int, i: int) -> bool {
    &&& base <= i
    &&& (i - base) % step == 0
    &&& (i - base) / step < n
}

/// The buffer after the horizontal pass of a box blur: each byte of the
/// region becomes the average of its channel over the pixels of its row
/// that lie within `radius` columns of it and inside the region.
pub open spec fn row_blurred(
    src: Seq<u8>,
    width: int,
    left: int,
    top: int,
    right: int,
    bottom: int,
    radius: int,
) -> Seq<u8> {
    Seq::new(
        src.len(),
        |i: int|
            if in_region(width, left, top, right, bottom, i) {
                window_average(
                    src,
                    pixel_offset(width, left, row_of(width, i)) + i % 4,
                    4,
                    right - left,
                    radius,
                    column_of(width, i) - left,
                ) as u8
            } else {
                src[i]
            },
    )
}

/// The buffer after the vertical pass of a box blur: each byte of the
/// region becomes the average of its channel over the pixels of its column
/// that lie within `radius` rows of it and inside the region.
pub open spec fn column_blurred(
    src: Seq<u8>,
    width: int,
    left: int,
    top: int,
    right: int,
    bottom: int,
    radius: int,
) -> Seq<u8> {
    Seq::new(
        src.len(),
        |i: int|
            if in_region(width, left, top, right, bottom, i) {
                window_average(
                    src,
                    pixel_offset(width, column_of(width, i), top) + i % 4,
                    4 * width,
                    bottom - top,
                    radius,
                    row_of(width, i) - top,
                ) as u8
            } else {
                src[i]
            },
    )
}

/// The buffer after a box blur of `radius` over the region: the horizontal
/// pass, then the vertical pass over its result.
pub open spec fn box_blurred(
    src: Seq<u8>,
    width: int,
    left: int,
    top: int,
    right: int,
    bottom: int,
    radius: int,
) -> Seq<u8> {
    column_blurred(
        row_blurred(src, width, left, top, right, bottom, radius),
        width,
        left,
        top,
        right,
        bottom,
        radius,
    )
}

proof fn lemma_line_sum_split(src: Seq<u8>, base: int, step: int, k0: int, k1: int, k2: int)
    requires
        k0 <= k1 <= k2,
    ensures
        line_sum(src, base, step, k0, k2) == line_sum(src, base, step, k0, k1) + line_sum(
            src,
            base,
            step,
            k1,
            k2,
        ),
    decreases k2 - k1,
{
    if k1 < k2 {
        lemma_line_sum_split(src, base, step, k0, k1, k2 - 1);
    }
}

proof fn lemma_line_sum_bounds(src: Seq<u8>, base: int, step: int, k0: int, k1: int)
    requires
        k0 <= k1,
    ensures
        0 <= line_sum(src, base, step, k0, k1) <= 255 * (k1 - k0),
    decreases k1 - k0,
{
    if k0 < k1 {
        lemma_line_sum_bounds(src, base, step, k0, k1 - 1);
    }
}

/// Position `k` of a line is the byte `base + k * step`, and no other byte
/// is at position `k`.
proof fn lemma_line_position(base: int, step: int, k: int, i: int)
    requires
        0 < step,
        0 <= k,
    ensures
        i == base + k * step <==> (base <= i && (i - base) % step == 0 && (i - base) / step == k),
{
    if i == base + k * step {
        lemma_fundamental_div_mod_converse(i - base, step, k, 0);
        assert(0 <= k * step) by (nonlinear_arith)
            requires
                0 <= k,
                0 < step,
        ;
    }
    if base <= i && (i - base) % step == 0 && (i - base) / step == k {
        lemma_fundamental_div_mod(i - base, step);
        assert(i - base == k * step) by (nonlinear_arith)
            requires
                i - base == step * k,
        ;
    }
}

/// Sets each position `k` of the line that starts at `base` and advances
/// `step` bytes per position to the average of `src` over the window of
/// `radius` around `k`.
fn blur_line(src: &Vec<u8>, dst: &mut Vec<u8>, base: usize, step: usize, n: usize, radius: u64)
    requires
        0 < step,
        0 < n <= u32::MAX,
        radius <= u32::MAX,
        base + (n - 1) * step < src@.len(),
        old(dst)@.len() == src@.len(),
    ensures
        final(dst)@ == Seq::new(
            src@.len(),
            |i: int|
                if on_line(base as int, step as int, n as int, i) {
                    window_average(
                        src@,
                        base as int,
                        step as int,
                        n as int,
                        radius as int,
                        (i - base) / (step as int),
                    ) as u8
                } else {
                    old(dst)@[i]
                },
        ),
{
    let ghost old_dst = dst@;
    let ghost b = base as int;
    let ghost st = step as int;
    // prefix[k] is the sum of the first k positions.
    let mut prefix: Vec<u64> = Vec::new();
    prefix.push(0);
    let mut k: usize = 0;
    while k < n
        invariant
            0 < step == st,
            base == b,
            0 < n <= u32::MAX,
            b + (n - 1) * st < src@.len(),
            k <= n,
            prefix@.len() == k + 1,
            forall|j: int| 0 <= j <= k ==> #[trigger] prefix@[j] == line_sum(src@, b, st, 0, j),
        decreases n - k,
    {
        proof {
            lemma_line_sum_bounds(src@, b, st, 0, k as int);
            assert(k * step <= (n - 1) * step) by (nonlinear_arith)
                requires
                    k <= n - 1,
                    0 < step,
            ;
            assert(src@.len() == src.len());
        }
        let last = prefix[k];
        let value = src[base + k * step] as u64;
        prefix.push(last + value);
        k = k + 1;
    }
    let mut k: usize = 0;
    assert(dst@ =~= Seq::new(
        src@.len(),
        |i: int|
            if on_line(b, st, 0, i) {
                window_average(src@, b, st, n as int, radius as int, (i - b) / st) as u8
            } else {
                old_dst[i]
            },
    ));
    while k < n
        invariant
            0 < step == st,
            base == b,
            0 < n <= u32::MAX,
            radius <= u32::MAX,
            b + (n - 1) * st < src@.len(),
            k <= n,
            prefix@.len() == n + 1,
            forall|j: int| 0 <= j <= n ==> #[trigger] prefix@[j] == line_sum(src@, b, st, 0, j),
            old_dst.len() == src@.len(),
            dst@ == Seq::new(
                src@.len(),
                |i: int|
                    if on_line(b, st, k as int, i) {
                        window_average(src@, b, st, n as int, radius as int, (i - b) / st) as u8
                    } else {
                        old_dst[i]
                    },
            ),
        decreases n - k,
    {
        let start: u64 = if (k as u64) >= radius {
            k as u64 - radius
        } else {
            0
        };
        let end: u64 = if (k as u64) + radius + 1 < n as u64 {
            (k as u64) + radius + 1
        } else {
            n as u64
        };
        proof {
            lemma_line_sum_split(src@, b, st, 0, start as int, end as int);
            lemma_line_sum_bounds(src@, b, st, start as int, end as int);
            lemma_average_fits(line_sum(src@, b, st, start as int, end as int), end - start);
            assert(src@.len() == src.len());
            assert(k * step <= (n - 1) * step) by (nonlinear_arith)
                requires
                    k <= n - 1,
                    0 < step,
            ;
        }
        let total = prefix[end as usize] - prefix[start as usize];
        let average = (total / (end - start)) as u8;
        let position = base + k * step;
        let ghost before = dst@;
        dst.set(position, average);
        proof {
            let next = Seq::new(
                src@.len(),
                |i: int|
                    if on_line(b, st, k + 1, i) {
                        window_average(src@, b, st, n as int, radius as int, (i - b) / st) as u8
                    } else {
                        old_dst[i]
                    },
            );
            assert forall|i: int| 0 <= i < src@.len() implies dst@[i] == next[i] by {
                lemma_line_position(b, st, k as int, i);
            }
            assert(dst@ =~= next);
        }
        k = k + 1;
    }
}

/// The bytes of channel `c` of the pixels of row `y` from column `left` to
/// `right` are the positions of the line starting at that row's first such
/// byte, four bytes apart.
proof fn lemma_row_line(width: int, left: int, right: int, y: int, c: int, i: int)
    requires
        0 <= left < right <= width,
        0 <= y,
        0 <= c < 4,
        0 <= i,
    ensures
        on_line(pixel_offset(width, left, y) + c, 4, right - left, i) <==> (row_of(width, i) == y
            && i % 4 == c && left <= column_of(width, i) < right),
        on_line(pixel_offset(width, left, y) + c, 4, right - left, i) ==> (i - (pixel_offset(
            width,
            left,
            y,
        ) + c)) / 4 == column_of(width, i) - left,
{
    let base = pixel_offset(width, left, y) + c;
    lemma_coordinates_offset(width, i);
    let x = column_of(width, i);
    if row_of(width, i) == y && i % 4 == c && left <= x < right {
        lemma_line_position(base, 4, x - left, i);
    }
    if on_line(base, 4, right - left, i) {
        let k = (i - base) / 4;
        vstd::arithmetic::div_mod::lemma_div_pos_is_pos(i - base, 4);
        lemma_line_position(base, 4, k, i);
        lemma_offset_coordinates(width, left + k, y, c);
    }
}

/// The bytes of channel `c` of the pixels of column `x` from row `top` to
/// `bottom` are the positions of the line starting at that column's first
/// such byte, one row apart.
proof fn lemma_column_line(width: int, top: int, bottom: int, x: int, c: int, i: int)
    requires
        0 <= x < width,
        0 <= top < bottom,
        0 <= c < 4,
        0 <= i,
    ensures
        on_line(pixel_offset(width, x, top) + c, 4 * width, bottom - top, i) <==> (column_of(
            width,
            i,
        ) == x && i % 4 == c && top <= row_of(width, i) < bottom),
        on_line(pixel_offset(width, x, top) + c, 4 * width, bottom - top, i) ==> (i - (
        pixel_offset(width, x, top) + c)) / (4 * width) == row_of(width, i) - top,
{
    let base = pixel_offset(width, x, top) + c;
    lemma_coordinates_offset(width, i);
    let y = row_of(width, i);
    if column_of(width, i) == x && i % 4 == c && top <= y < bottom {
        assert(i - base == (y - top) * (4 * width)) by (nonlinear_arith)
            requires
                i == (y * width + x) * 4 + c,
                base == (top * width + x) * 4 + c,
        ;
        lemma_line_position(base, 4 * width, y - top, i);
    }
    if on_line(base, 4 * width, bottom - top, i) {
        let k = (i - base) / (4 * width);
        vstd::arithmetic::div_mod::lemma_div_pos_is_pos(i - base, 4 * width);
        lemma_line_position(base, 4 * width, k, i);
        assert(i == pixel_offset(width, x, top + k) + c) by (nonlinear_arith)
            requires
                i == base + k * (4 * width),
                base == (top * width + x) * 4 + c,
        ;
        lemma_offset_coordinates(width, x, top + k, c);
    }
}

/// `src` with the horizontal pass done on the rows before `y`, and on the
/// channels before `c` of row `y`.
spec fn rows_progress(
    src: Seq<u8>,
    width: int,
    left: int,
    top: int,
    right: int,
    bottom: int,
    radius: int,
    y: int,
    c: int,
) -> Seq<u8> {
    Seq::new(
        src.len(),
        |i: int|
            if in_region(width, left, top, right, bottom, i) && (row_of(width, i) < y || (row_of(
                width,
                i,
            ) == y && i % 4 < c)) {
                row_blurred(src, width, left, top, right, bottom, radius)[i]
            } else {
                src[i]
            },
    )
}

/// The horizontal pass: `dst`, a copy of `src`, receives the row averages.
fn blur_rows(
    src: &Vec<u8>,
    dst: &mut Vec<u8>,
    width: u32,
    left: u32,
    top: u32,
    right: u32,
    bottom: u32,
    radius: u32,
)
    requires
        left < right <= width,
        top < bottom,
        region_fits(width as int, right as int, bottom as int, src@.len() as int),
        old(dst)@ == src@,
    ensures
        final(dst)@ == row_blurred(
            src@,
            width as int,
            left as int,
            top as int,
            right as int,
            bottom as int,
            radius as int,
        ),
{
    let ghost w = width as int;
    let ghost l = left as int;
    let ghost t = top as int;
    let ghost r = right as int;
    let ghost b = bottom as int;
    let ghost rad = radius as int;
    let n = (right - left) as usize;
    let mut y: u32 = top;
    assert(dst@ =~= rows_progress(src@, w, l, t, r, b, rad, t, 0));
    while y < bottom
        invariant
            l == left < r == right <= w == width,
            t == top <= y <= bottom == b,
            rad == radius,
            n == r - l,
            region_fits(w, r, b, src@.len() as int),
            dst@ == rows_progress(src@, w, l, t, r, b, rad, y as int, 0),
        decreases bottom - y,
    {
        let mut c: u32 = 0;
        while c < 4
            invariant
                l == left < r == right <= w == width,
                t == top <= y < bottom == b,
                rad == radius,
                n == r - l,
                c <= 4,
                region_fits(w, r, b, src@.len() as int),
                dst@ == rows_progress(src@, w, l, t, r, b, rad, y as int, c as int),
            decreases 4 - c,
        {
            proof {
                lemma_offsets_ordered(w, r - 1, y as int, r - 1, b - 1);
                assert(src@.len() == src.len());
                assert(y * width + left <= 0xffff_ffff_ffff_ffff) by (nonlinear_arith)
                    requires
                        y <= 0xffff_ffff,
                        width <= 0xffff_ffff,
                        left <= width,
                ;
            }
            let base = ((y as u64 * width as u64 + left as u64) * 4 + c as u64) as usize;
            let ghost before = dst@;
            blur_line(src, dst, base, 4, n, radius as u64);
            proof {
                let next = rows_progress(src@, w, l, t, r, b, rad, y as int, c + 1);
                assert forall|i: int| 0 <= i < src@.len() implies dst@[i] == next[i] by {
                    lemma_row_line(w, l, r, y as int, c as int, i);
                }
                assert(dst@ =~= next);
            }
            c = c + 1;
        }
        assert(dst@ =~= rows_progress(src@, w, l, t, r, b, rad, y + 1, 0)) by {
            assert forall|i: int| 0 <= i < src@.len() implies 0 <= #[trigger] (i % 4) < 4 by {
                lemma_mod_pos_bound(i, 4);
            }
        }
        y = y + 1;
    }
    assert(dst@ =~= row_blurred(src@, w, l, t, r, b, rad));
}

/// `dst` with the vertical pass of `src` done on the columns before `x`, and
/// on the channels before `c` of column `x`.
spec fn columns_progress(
    src: Seq<u8>,
    dst: Seq<u8>,
    width: int,
    left: int,
    top: int,
    right: int,
    bottom: int,
    radius: int,
    x: int,
    c: int,
) -> Seq<u8> {
    Seq::new(
        dst.len(),
        |i: int|
            if in_region(width, left, top, right, bottom, i) && (column_of(width, i) < x || (
            column_of(width, i) == x && i % 4 < c)) {
                column_blurred(src, width, left, top, right, bottom, radius)[i]
            } else {
                dst[i]
            },
    )
}

/// The vertical pass: the region of `dst` receives the column averages of
/// `src`.
fn blur_columns(
    src: &Vec<u8>,
    dst: &mut Vec<u8>,
    width: u32,
    left: u32,
    top: u32,
    right: u32,
    bottom: u32,
    radius: u32,
)
    requires
        left < right <= width,
        top < bottom,
        region_fits(width as int, right as int, bottom as int, src@.len() as int),
        4 * width <= src@.len(),
        old(dst)@.len() == src@.len(),
    ensures
        final(dst)@ == Seq::new(
            src@.len(),
            |i: int|
                if in_region(width as int, left as int, top as int, right as int, bottom as int, i) {
                    column_blurred(
                        src@,
                        width as int,
                        left as int,
                        top as int,
                        right as int,
                        bottom as int,
                        radius as int,
                    )[i]
                } else {
                    old(dst)@[i]
                },
        ),
{
    let ghost w = width as int;
    let ghost l = left as int;
    let ghost t = top as int;
    let ghost r = right as int;
    let ghost b = bottom as int;
    let ghost rad = radius as int;
    let ghost dst0 = dst@;
    let n = (bottom - top) as usize;
    assert(src@.len() == src.len());
    let step = (width as usize) * 4;
    let mut x: u32 = left;
    assert(dst@ =~= columns_progress(src@, dst0, w, l, t, r, b, rad, l, 0));
    while x < right
        invariant
            l == left <= x <= right == r <= w == width,
            l < r,
            t == top < bottom == b,
            rad == radius,
            n == b - t,
            step == 4 * w,
            dst0.len() == src@.len(),
            region_fits(w, r, b, src@.len() as int),
            dst@ == columns_progress(src@, dst0, w, l, t, r, b, rad, x as int, 0),
        decreases right - x,
    {
        let mut c: u32 = 0;
        while c < 4
            invariant
                l == left <= x < right == r <= w == width,
                t == top < bottom == b,
                rad == radius,
                n == b - t,
                step == 4 * w,
                c <= 4,
                dst0.len() == src@.len(),
                region_fits(w, r, b, src@.len() as int),
                dst@ == columns_progress(src@, dst0, w, l, t, r, b, rad, x as int, c as int),
            decreases 4 - c,
        {
            proof {
                lemma_offsets_ordered(w, x as int, b - 1, r - 1, b - 1);
                assert(src@.len() == src.len());
                assert(top * width + x <= 0xffff_ffff_ffff_ffff) by (nonlinear_arith)
                    requires
                        top <= 0xffff_ffff,
                        width <= 0xffff_ffff,
                        x <= width,
                ;
                assert(pixel_offset(w, x as int, t) + c + (n - 1) * step == pixel_offset(
                    w,
                    x as int,
                    b - 1,
                ) + c) by (nonlinear_arith)
                    requires
                        n == b - t,
                        step == 4 * w,
                ;
                assert(pixel_offset(w, x as int, t) <= pixel_offset(w, x as int, b - 1)) by {
                    lemma_offsets_ordered(w, x as int, t, x as int, b - 1);
                }
            }
            let base = ((top as u64 * width as u64 + x as u64) * 4 + c as u64) as usize;
            blur_line(src, dst, base, step, n, radius as u64);
            proof {
                let next = columns_progress(src@, dst0, w, l, t, r, b, rad, x as int, c + 1);
                assert forall|i: int| 0 <= i < src@.len() implies dst@[i] == next[i] by {
                    lemma_column_line(w, t, b, x as int, c as int, i);
                }
                assert(dst@ =~= next);
            }
            c = c + 1;
        }
        assert(dst@ =~= columns_progress(src@, dst0, w, l, t, r, b, rad, x + 1, 0)) by {
            assert forall|i: int| 0 <= i < src@.len() implies 0 <= #[trigger] (i % 4) < 4 by {
                lemma_mod_pos_bound(i, 4);
            }
        }
        x = x + 1;
    }
}

/// Blurs the region with a box of `radius` pixels: a horizontal pass of row
/// averages, then a vertical pass of column averages over its result;
/// windows are cut short at the region's edges.
pub fn apply_blur(
    pixels: &mut Vec<u8>,
    width: u32,
    height: u32,
    left: u32,
    top: u32,
    right: u32,
    bottom: u32,
    radius: u32,
)
    requires
        left <= right <= width,
        top <= bottom <= height,
        old(pixels)@.len() == width * height * 4,
    ensures
        final(pixels)@ == box_blurred(
            old(pixels)@,
            width as int,
            left as int,
            top as int,
            right as int,
            bottom as int,
            radius as int,
        ),
{
    let ghost src = pixels@;
    let ghost w = width as int;
    if left == right || top == bottom {
        assert(pixels@ =~= box_blurred(
            src,
            w,
            left as int,
            top as int,
            right as int,
            bottom as int,
            radius as int,
        )) by {
            assert(row_blurred(src, w, left as int, top as int, right as int, bottom as int, radius as int) =~= src);
        }
        return;
    }
    proof {
        assert(pixel_offset(w, right - 1, bottom - 1) + 4 <= src.len()) by (nonlinear_arith)
            requires
                src.len() == w * height * 4,
                right <= w,
                1 <= bottom <= height,
        ;
        assert(4 * w <= src.len()) by (nonlinear_arith)
            requires
                src.len() == w * height * 4,
                1 <= height,
                0 <= w,
        ;
    }
    let mut horizontal = pixels.clone();
    assert(horizontal@ =~= pixels@);
    blur_rows(pixels, &mut horizontal, width, left, top, right, bottom, radius);
    blur_columns(&horizontal, pixels, width, left, top, right, bottom, radius);
    assert(pixels@ =~= box_blurred(
        src,
        w,
        left as int,
        top as int,
        right as int,
        bottom as int,
        radius as int,
    ));
}

/// Every pixel of the region has the same value in each channel as its
/// top-left pixel.
pub open spec fn flat_region(
    src: Seq<u8>,
    width: int,
    left: int,
    top: int,
    right: int,
    bottom: int,
) -> bool {
    forall|x: int, y: int, c: int|
        left <= x < right && top <= y < bottom && 0 <= c < 4 ==> #[trigger] src[pixel_offset(
            width,
            x,
            y,
        ) + c] == src[pixel_offset(width, left, top) + c]
}

proof fn lemma_row_sum_constant(src: Seq<u8>, width: int, c: int, y: int, x0: int, x1: int, v: int)
    requires
        x0 <= x1,
        forall|x: int| x0 <= x < x1 ==> src[#[trigger] pixel_offset(width, x, y) + c] == v,
    ensures
        row_channel_sum(src, width, c, y, x0, x1) == v * (x1 - x0),
    decreases x1 - x0,
{
    if x0 < x1 {
        lemma_row_sum_constant(src, width, c, y, x0, x1 - 1, v);
        assert(v * (x1 - 1 - x0) + v == v * (x1 - x0)) by (nonlinear_arith);
    } else {
        assert(v * (x1 - x0) == 0) by (nonlinear_arith)
            requires
                x1 == x0,
        ;
    }
}

proof fn lemma_block_sum_constant(
    src: Seq<u8>,
    width: int,
    c: int,
    x0: int,
    x1: int,
    y0: int,
    y1: int,
    v: int,
)
    requires
        x0 <= x1,
        y0 <= y1,
        forall|x: int, y: int|
            x0 <= x < x1 && y0 <= y < y1 ==> src[#[trigger] pixel_offset(width, x, y) + c] == v,
    ensures
        block_channel_sum(src, width, c, x0, x1, y0, y1) == v * ((x1 - x0) * (y1 - y0)),
    decreases y1 - y0,
{
    if y0 < y1 {
        lemma_block_sum_constant(src, width, c, x0, x1, y0, y1 - 1, v);
        assert forall|x: int| x0 <= x < x1 implies src[#[trigger] pixel_offset(width, x, y1 - 1)
            + c] == v by {}
        lemma_row_sum_constant(src, width, c, y1 - 1, x0, x1, v);
        assert(v * ((x1 - x0) * (y1 - 1 - y0)) + v * (x1 - x0) == v * ((x1 - x0) * (y1 - y0)))
            by (nonlinear_arith);
    } else {
        assert(v * ((x1 - x0) * (y1 - y0)) == 0) by (nonlinear_arith)
            requires
                y1 == y0,
        ;
    }
}

/// A mosaic over a region of one flat color changes nothing.
pub proof fn mosaic_keeps_flat_regions(
    src: Seq<u8>,
    width: int,
    left: int,
    top: int,
    right: int,
    bottom: int,
    size: int,
)
    requires
        0 < size,
        0 <= left <= right <= width,
        0 <= top <= bottom,
        flat_region(src, width, left, top, right, bottom),
    ensures
        mosaicked(src, width, left, top, right, bottom, size) == src,
{
    let goal = mosaicked(src, width, left, top, right, bottom, size);
    assert forall|i: int| 0 <= i < src.len() implies goal[i] == src[i] by {
        if in_region(width, left, top, right, bottom, i) {
            let x = column_of(width, i);
            let y = row_of(width, i);
            let c = i % 4;
            lemma_coordinates_offset(width, i);
            lemma_block_bounds(left, size, x);
            lemma_block_bounds(top, size, y);
            let x0 = block_first(left, size, x);
            let x1 = block_end(left, size, right, x);
            let y0 = block_first(top, size, y);
            let y1 = block_end(top, size, bottom, y);
            let v = src[pixel_offset(width, left, top) + c] as int;
            assert forall|bx: int, by: int|
                x0 <= bx < x1 && y0 <= by < y1 implies src[#[trigger] pixel_offset(width, bx, by)
                + c] == v by {}
            lemma_block_sum_constant(src, width, c, x0, x1, y0, y1, v);
            assert(0 < (x1 - x0) * (y1 - y0)) by (nonlinear_arith)
                requires
                    x0 < x1,
                    y0 < y1,
            ;
            lemma_div_by_multiple(v, (x1 - x0) * (y1 - y0));
            assert(src[i] == v);
        }
    }
    assert(goal =~= src);
}

/// The window around any position of a line of `n` positions that all
/// hold `v` averages to `v`.
proof fn lemma_flat_window(src: Seq<u8>, base: int, step: int, n: int, radius: int, k: int, v: int)
    requires
        0 <= k < n,
        0 <= radius,
        forall|j: int| 0 <= j < n ==> src[#[trigger] (base + j * step)] == v,
    ensures
        window_average(src, base, step, n, radius, k) == v,
{
    let start = window_start(k, radius);
    let end = window_end(k, radius, n);
    assert(start <= k < end);
    lemma_line_sum_constant(src, base, step, start, end, v);
    lemma_div_by_multiple(v, end - start);
    assert(v * (end - start) == (end - start) * v) by (nonlinear_arith);
}

proof fn lemma_line_sum_constant(src: Seq<u8>, base: int, step: int, k0: int, k1: int, v: int)
    requires
        k0 <= k1,
        forall|j: int| k0 <= j < k1 ==> src[#[trigger] (base + j * step)] == v,
    ensures
        line_sum(src, base, step, k0, k1) == v * (k1 - k0),
    decreases k1 - k0,
{
    if k0 < k1 {
        lemma_line_sum_constant(src, base, step, k0, k1 - 1, v);
        assert(v * (k1 - 1 - k0) + v == v * (k1 - k0)) by (nonlinear_arith);
    } else {
        assert(v * (k1 - k0) == 0) by (nonlinear_arith)
            requires
                k1 == k0,
        ;
    }
}

/// A blur over a region of one flat color changes nothing.
pub proof fn blur_keeps_flat_regions(
    src: Seq<u8>,
    width: int,
    left: int,
    top: int,
    right: int,
    bottom: int,
    radius: int,
)
    requires
        0 <= radius,
        0 <= left <= right <= width,
        0 <= top <= bottom,
        flat_region(src, width, left, top, right, bottom),
    ensures
        box_blurred(src, width, left, top, right, bottom, radius) == src,
{
    let rows = row_blurred(src, width, left, top, right, bottom, radius);
    assert forall|i: int| 0 <= i < src.len() implies rows[i] == src[i] by {
        if in_region(width, left, top, right, bottom, i) {
            let x = column_of(width, i);
            let y = row_of(width, i);
            let c = i % 4;
            lemma_coordinates_offset(width, i);
            let base = pixel_offset(width, left, y) + c;
            let v = src[pixel_offset(width, left, top) + c] as int;
            assert forall|j: int| 0 <= j < right - left implies src[#[trigger] (base + j * 4)] == v by {
                assert(base + j * 4 == pixel_offset(width, left + j, y) + c);
            }
            lemma_flat_window(src, base, 4, right - left, radius, x - left, v);
        }
    }
    assert(rows =~= src);
    let columns = column_blurred(src, width, left, top, right, bottom, radius);
    assert forall|i: int| 0 <= i < src.len() implies columns[i] == src[i] by {
        if in_region(width, left, top, right, bottom, i) {
            let x = column_of(width, i);
            let y = row_of(width, i);
            let c = i % 4;
            lemma_coordinates_offset(width, i);
            let base = pixel_offset(width, x, top) + c;
            let v = src[pixel_offset(width, left, top) + c] as int;
            assert forall|j: int| 0 <= j < bottom - top implies src[#[trigger] (base + j * (4 * width))] == v by {
                assert(base + j * (4 * width) == pixel_offset(width, x, top + j) + c) by (nonlinear_arith)
                    requires
                        base == (top * width + x) * 4 + c,
                ;
            }
            lemma_flat_window(src, base, 4 * width, bottom - top, radius, y - top, v);
        }
    }
    assert(columns =~= src);
}

} // verus!
