//! RGBA pixel buffers: four bytes per pixel, rows stored one after another.

use vstd::arithmetic::div_mod::{
    lemma_div_pos_is_pos, lemma_fundamental_div_mod, lemma_fundamental_div_mod_converse,
    lemma_mod_pos_bound,
};
use vstd::prelude::*;

verus! {

/// The index of the first byte of pixel `(x, y)` in a buffer `width` pixels wide.
pub open spec fn pixel_offset(width: int, x: int, y: int) -> int {
    (y * width + x) * 4
}

/// The column of the pixel that byte `i` of a buffer `width` pixels wide belongs to.
pub open spec fn column_of(width: int, i: int) -> int {
    (i / 4) % width
}

/// The row of the pixel that byte `i` of a buffer `width` pixels wide belongs to.
pub open spec fn row_of(width: int, i: int) -> int {
    (i / 4) / width
}

/// Byte `i` belongs to a pixel of the region from column `left` to `right`
/// and row `top` to `bottom` (ends excluded).
pub open spec fn in_region(width: int, left: int, top: int, right: int, bottom: int, i: int) -> bool {
    &&& left <= column_of(width, i) < right
    &&& top <= row_of(width, i) < bottom
}

/// Byte `c` of pixel `(x, y)` belongs to column `x`, row `y` and channel `c`.
pub proof fn lemma_offset_coordinates(width: int, x: int, y: int, c: int)
    requires
        0 <= x < width,
        0 <= y,
        0 <= c < 4,
    ensures
        column_of(width, pixel_offset(width, x, y) + c) == x,
        row_of(width, pixel_offset(width, x, y) + c) == y,
        (pixel_offset(width, x, y) + c) % 4 == c,
{
    let p = y * width + x;
    assert(pixel_offset(width, x, y) + c == p * 4 + c);
    lemma_fundamental_div_mod_converse(p * 4 + c, 4, p, c);
    lemma_fundamental_div_mod_converse(p, width, y, x);
}

/// Every byte of a buffer is byte `i % 4` of the pixel at its column and row.
pub proof fn lemma_coordinates_offset(width: int, i: int)
    requires
        0 < width,
        0 <= i,
    ensures
        0 <= column_of(width, i) < width,
        0 <= row_of(width, i),
        0 <= i % 4 < 4,
        i == pixel_offset(width, column_of(width, i), row_of(width, i)) + i % 4,
{
    let p = i / 4;
    lemma_fundamental_div_mod(i, 4);
    lemma_mod_pos_bound(i, 4);
    lemma_div_pos_is_pos(i, 4);
    lemma_fundamental_div_mod(p, width);
    lemma_mod_pos_bound(p, width);
    lemma_div_pos_is_pos(p, width);
    let q = p / width;
    let r = p % width;
    assert(p == q * width + r) by (nonlinear_arith)
        requires
            p == width * q + r,
    ;
}

/// The bytes of the first `rows` rows of the `region_width`-pixel-wide
/// region whose top-left pixel is `(left, top)`, row after row.
pub open spec fn region_rows(
    src: Seq<u8>,
    width: int,
    left: int,
    top: int,
    region_width: int,
    rows: int,
) -> Seq<u8>
    decreases rows,
{
    if rows <= 0 {
        Seq::empty()
    } else {
        let start = pixel_offset(width, left, top + (rows - 1));
        region_rows(src, width, left, top, region_width, rows - 1) + src.subrange(
            start,
            start + region_width * 4,
        )
    }
}

/// Byte `c` of pixel `(x, y)` of a region is byte `c` of pixel
/// `(left + x, top + y)` of the buffer it was taken from.
pub proof fn lemma_region_rows_pixel(
    src: Seq<u8>,
    width: int,
    left: int,
    top: int,
    region_width: int,
    rows: int,
    x: int,
    y: int,
    c: int,
)
    requires
        0 <= x < region_width,
        0 <= y < rows,
        0 <= c < 4,
        forall|r: int|
            0 <= r < rows ==> 0 <= #[trigger] pixel_offset(width, left, top + r) && pixel_offset(
                width,
                left,
                top + r,
            ) + region_width * 4 <= src.len(),
    ensures
        region_rows(src, width, left, top, region_width, rows)[pixel_offset(region_width, x, y) + c]
            == src[pixel_offset(width, left + x, top + y) + c],
    decreases rows,
{
    let prefix = region_rows(src, width, left, top, region_width, rows - 1);
    lemma_region_rows_len(src, width, left, top, region_width, rows - 1);
    let start = pixel_offset(width, left, top + (rows - 1));
    assert(0 <= start && start + region_width * 4 <= src.len());
    let i = pixel_offset(region_width, x, y) + c;
    if y == rows - 1 {
        assert(i == (rows - 1) * region_width * 4 + (x * 4 + c)) by (nonlinear_arith)
            requires
                i == (y * region_width + x) * 4 + c,
                y == rows - 1,
        ;
        assert(start + (x * 4 + c) == pixel_offset(width, left + x, top + y) + c) by (nonlinear_arith)
            requires
                start == ((top + (rows - 1)) * width + left) * 4,
                y == rows - 1,
        ;
    } else {
        lemma_region_rows_pixel(src, width, left, top, region_width, rows - 1, x, y, c);
        assert(i < (rows - 1) * region_width * 4) by (nonlinear_arith)
            requires
                i == (y * region_width + x) * 4 + c,
                0 <= y < rows - 1,
                0 <= x < region_width,
                0 <= c < 4,
        ;
    }
}

/// A region of `rows` rows holds `rows * region_width * 4` bytes.
pub proof fn lemma_region_rows_len(
    src: Seq<u8>,
    width: int,
    left: int,
    top: int,
    region_width: int,
    rows: int,
)
    requires
        0 <= rows,
        0 <= region_width,
        forall|r: int|
            0 <= r < rows ==> 0 <= #[trigger] pixel_offset(width, left, top + r) && pixel_offset(
                width,
                left,
                top + r,
            ) + region_width * 4 <= src.len(),
    ensures
        region_rows(src, width, left, top, region_width, rows).len() == rows * region_width * 4,
    decreases rows,
{
    if rows > 0 {
        lemma_region_rows_len(src, width, left, top, region_width, rows - 1);
        let start = pixel_offset(width, left, top + (rows - 1));
        assert(0 <= start && start + region_width * 4 <= src.len());
        assert(src.subrange(start, start + region_width * 4).len() == region_width * 4);
        assert((rows - 1) * region_width * 4 + region_width * 4 == rows * region_width * 4)
            by (nonlinear_arith);
    } else {
        assert(rows * region_width * 4 == 0) by (nonlinear_arith)
            requires
                rows == 0,
        ;
    }
}

/// Row `row` of a region lies inside a buffer that holds the region's last
/// row, when the region is inside the buffer's width.
proof fn lemma_row_inside(width: int, left: int, right: int, top: int, bottom: int, row: int)
    requires
        0 <= left <= right <= width,
        0 <= top <= top + row < bottom,
    ensures
        0 <= pixel_offset(width, left, top + row),
        pixel_offset(width, left, top + row) + (right - left) * 4 <= ((bottom - 1) * width + right)
            * 4,
{
    assert(0 <= (top + row) * width) by (nonlinear_arith)
        requires
            0 <= top + row,
            0 <= width,
    ;
    assert((top + row) * width <= (bottom - 1) * width) by (nonlinear_arith)
        requires
            top + row <= bottom - 1,
            0 <= width,
    ;
}

/// The pixels of the region from column `left` to `right` and row `top` to
/// `bottom` (ends excluded) of a buffer `width` pixels wide.
pub fn copy_region(pixels: &[u8], width: u32, left: u32, top: u32, right: u32, bottom: u32) -> (r:
    Vec<u8>)
    requires
        left <= right <= width,
        top <= bottom,
        top == bottom || ((bottom - 1) * width + right) * 4 <= pixels@.len(),
    ensures
        r@ == region_rows(pixels@, width as int, left as int, top as int, (right - left) as int, (
        bottom - top) as int),
{
    let region_width = (right - left) as usize;
    let region_height = (bottom - top) as usize;
    let mut snapshot: Vec<u8> = Vec::new();
    let mut row: usize = 0;
    while row < region_height
        invariant
            left <= right <= width,
            top <= bottom,
            top == bottom || ((bottom - 1) * width + right) * 4 <= pixels@.len(),
            region_width == right - left,
            region_height == bottom - top,
            row <= region_height,
            snapshot@ == region_rows(pixels@, width as int, left as int, top as int, region_width as int, row as int),
        decreases region_height - row,
    {
        proof {
            lemma_row_inside(width as int, left as int, right as int, top as int, bottom as int, row as int);
            assert(pixels@.len() == pixels.len());
            assert((top + row) * width <= (top + row) * width + left);
        }
        let start = ((top as usize + row) * width as usize + left as usize) * 4;
        let end = start + region_width * 4;
        let ghost before = snapshot@;
        snapshot.extend_from_slice(&pixels[start..end]);
        proof {
            assert(snapshot@ =~= before + pixels@.subrange(start as int, end as int));
            assert(pixel_offset(width as int, left as int, top + ((row + 1) - 1)) == start);
        }
        row += 1;
    }
    snapshot
}

/// Pixel `(x, y)` of a mask is marked when its first byte is not zero.
pub open spec fn marked(mask: Seq<u8>, width: int, x: int, y: int) -> bool {
    mask[pixel_offset(width, x, y)] != 0
}

/// The number of whole rows of four-byte pixels in a mask of `len` bytes.
pub open spec fn mask_height(len: int, width: int) -> int {
    len / 4 / width
}

/// Some pixel of the `width` by `height` mask is marked.
pub open spec fn has_marked(mask: Seq<u8>, width: int, height: int) -> bool {
    exists|x: int, y: int| 0 <= x < width && 0 <= y < height && #[trigger] marked(mask, width, x, y)
}

/// `b` is the smallest box, given as first and past-the-end column and row,
/// that holds every marked pixel of the `width` by `height` mask.
pub open spec fn tight_bounds(mask: Seq<u8>, width: int, height: int, b: (u32, u32, u32, u32)) -> bool {
    &&& forall|x: int, y: int|
        0 <= x < width && 0 <= y < height && #[trigger] marked(mask, width, x, y) ==> b.0 <= x
            < b.2 && b.1 <= y < b.3
    &&& exists|x: int, y: int|
        0 <= x < width && 0 <= y < height && #[trigger] marked(mask, width, x, y) && x == b.0
    &&& exists|x: int, y: int|
        0 <= x < width && 0 <= y < height && #[trigger] marked(mask, width, x, y) && x + 1 == b.2
    &&& exists|x: int, y: int|
        0 <= x < width && 0 <= y < height && #[trigger] marked(mask, width, x, y) && y == b.1
    &&& exists|x: int, y: int|
        0 <= x < width && 0 <= y < height && #[trigger] marked(mask, width, x, y) && y + 1 == b.3
}

/// Pixel `(x, y)` comes before pixel `(cx, cy)` in reading order.
spec fn scanned(x: int, y: int, cx: int, cy: int) -> bool {
    y < cy || (y == cy && x < cx)
}

/// The smallest box holding every marked pixel of a mask `width` pixels
/// wide, or `None` when no pixel is marked.
pub fn alpha_bounds(mask: &[u8], width: u32) -> (r: Option<(u32, u32, u32, u32)>)
    requires
        0 < width,
        mask@.len() <= u32::MAX,
    ensures
        r is None <==> !has_marked(mask@, width as int, mask_height(mask@.len() as int, width as int)),
        r matches Some(b) ==> tight_bounds(
            mask@,
            width as int,
            mask_height(mask@.len() as int, width as int),
            b,
        ),
{
    let height = (mask.len() as u32) / 4 / width;
    let ghost w = width as int;
    let ghost h = height as int;
    proof {
        assert(mask@.len() == mask.len());
        lemma_fundamental_div_mod(mask@.len() as int, 4);
        lemma_mod_pos_bound(mask@.len() as int, 4);
        let q = mask@.len() as int / 4;
        lemma_fundamental_div_mod(q, w);
        lemma_mod_pos_bound(q, w);
        lemma_div_pos_is_pos(q, w);
        assert(h * w * 4 <= mask@.len()) by (nonlinear_arith)
            requires
                q == w * h + q % w,
                0 <= q % w,
                mask@.len() == 4 * q + mask@.len() as int % 4,
                0 <= mask@.len() as int % 4,
        ;
    }
    let mut min_x = width;
    let mut min_y = height;
    let mut max_x: u32 = 0;
    let mut max_y: u32 = 0;
    let mut found = false;
    let ghost mut at_min_x: (int, int) = (0, 0);
    let ghost mut at_min_y: (int, int) = (0, 0);
    let ghost mut at_max_x: (int, int) = (0, 0);
    let ghost mut at_max_y: (int, int) = (0, 0);
    let mut y: u32 = 0;
    while y < height
        invariant
            w == width > 0,
            h == height,
            h * w * 4 <= mask@.len() <= u32::MAX,
            y <= height,
            !found ==> min_x == width && min_y == height && max_x == 0 && max_y == 0,
            found <==> exists|px: int, py: int|
                0 <= px < w && 0 <= py < y && #[trigger] marked(mask@, w, px, py),
            forall|px: int, py: int|
                0 <= px < w && 0 <= py < y && #[trigger] marked(mask@, w, px, py) ==> min_x <= px
                    < max_x && min_y <= py < max_y,
            found ==> {
                &&& 0 <= at_min_x.0 < w && 0 <= at_min_x.1 < y && marked(mask@, w, at_min_x.0, at_min_x.1) && at_min_x.0 == min_x
                &&& 0 <= at_max_x.0 < w && 0 <= at_max_x.1 < y && marked(mask@, w, at_max_x.0, at_max_x.1) && at_max_x.0 + 1 == max_x
                &&& 0 <= at_min_y.0 < w && 0 <= at_min_y.1 < y && marked(mask@, w, at_min_y.0, at_min_y.1) && at_min_y.1 == min_y
                &&& 0 <= at_max_y.0 < w && 0 <= at_max_y.1 < y && marked(mask@, w, at_max_y.0, at_max_y.1) && at_max_y.1 + 1 == max_y
            },
        decreases height - y,
    {
        let mut x: u32 = 0;
        while x < width
            invariant
                w == width > 0,
                h == height,
                h * w * 4 <= mask@.len() <= u32::MAX,
                y < height,
                x <= width,
                !found ==> min_x == width && min_y == height && max_x == 0 && max_y == 0,
                found <==> exists|px: int, py: int|
                    0 <= px < w && 0 <= py < h && scanned(px, py, x as int, y as int)
                        && #[trigger] marked(mask@, w, px, py),
                forall|px: int, py: int|
                    0 <= px < w && 0 <= py < h && scanned(px, py, x as int, y as int)
                        && #[trigger] marked(mask@, w, px, py) ==> min_x <= px < max_x && min_y
                        <= py < max_y,
                found ==> {
                    &&& 0 <= at_min_x.0 < w && 0 <= at_min_x.1 < h && scanned(at_min_x.0, at_min_x.1, x as int, y as int) && marked(mask@, w, at_min_x.0, at_min_x.1) && at_min_x.0 == min_x
                    &&& 0 <= at_max_x.0 < w && 0 <= at_max_x.1 < h && scanned(at_max_x.0, at_max_x.1, x as int, y as int) && marked(mask@, w, at_max_x.0, at_max_x.1) && at_max_x.0 + 1 == max_x
                    &&& 0 <= at_min_y.0 < w && 0 <= at_min_y.1 < h && scanned(at_min_y.0, at_min_y.1, x as int, y as int) && marked(mask@, w, at_min_y.0, at_min_y.1) && at_min_y.1 == min_y
                    &&& 0 <= at_max_y.0 < w && 0 <= at_max_y.1 < h && scanned(at_max_y.0, at_max_y.1, x as int, y as int) && marked(mask@, w, at_max_y.0, at_max_y.1) && at_max_y.1 + 1 == max_y
                },
            decreases width - x,
        {
            proof {
                assert(y * w + x < h * w) by (nonlinear_arith)
                    requires
                        y < h,
                        x < w,
                ;
                assert(mask@.len() == mask.len());
            }
            let index = ((y * width + x) * 4) as usize;
            if mask[index] != 0 {
                assert(marked(mask@, w, x as int, y as int));
                found = true;
                if x < min_x {
                    min_x = x;
                    proof {
                        at_min_x = (x as int, y as int);
                    }
                }
                if y < min_y {
                    min_y = y;
                    proof {
                        at_min_y = (x as int, y as int);
                    }
                }
                if x + 1 > max_x {
                    max_x = x + 1;
                    proof {
                        at_max_x = (x as int, y as int);
                    }
                }
                if y + 1 > max_y {
                    max_y = y + 1;
                    proof {
                        at_max_y = (x as int, y as int);
                    }
                }
            }
            x = x + 1;
        }
        y = y + 1;
    }
    if found {
        let b = (min_x, min_y, max_x, max_y);
        assert(tight_bounds(mask@, w, h, b)) by {
            let p0 = at_min_x;
            let p1 = at_max_x;
            let p2 = at_min_y;
            let p3 = at_max_y;
            assert(marked(mask@, w, p0.0, p0.1) && p0.0 == b.0);
            assert(marked(mask@, w, p1.0, p1.1) && p1.0 + 1 == b.2);
            assert(marked(mask@, w, p2.0, p2.1) && p2.1 == b.1);
            assert(marked(mask@, w, p3.0, p3.1) && p3.1 + 1 == b.3);
        }
        Some(b)
    } else {
        None
    }
}

/// One channel of a snapshot byte laid over a buffer byte with coverage
/// `coverage` out of 255.
pub open spec fn mix(under: int, over: int, coverage: int) -> int {
    (under * (255 - coverage) + over * coverage) / 255
}

/// The column of a snapshot that starts at column `origin` which a pixel
/// at column `v` reads; pixels before the snapshot read its first column.
pub open spec fn snapshot_local(v: int, origin: int) -> int {
    if v >= origin {
        v - origin
    } else {
        0
    }
}

/// The buffer after pixel `(x, y)` is blended towards the snapshot pixel it
/// corresponds to, when there is one.
pub open spec fn snapshot_restored(
    pixels: Seq<u8>,
    width: int,
    x: int,
    y: int,
    snapshot: Seq<u8>,
    snapshot_width: int,
    snapshot_height: int,
    snapshot_left: int,
    snapshot_top: int,
    coverage: int,
) -> Seq<u8> {
    let local_x = snapshot_local(x, snapshot_left);
    let local_y = snapshot_local(y, snapshot_top);
    let target = pixel_offset(width, x, y);
    let source = pixel_offset(snapshot_width, local_x, local_y);
    if local_x >= snapshot_width || local_y >= snapshot_height {
        pixels
    } else {
        Seq::new(
            pixels.len(),
            |i: int|
                if target <= i < target + 4 {
                    mix(pixels[i] as int, snapshot[source + (i - target)] as int, coverage) as u8
                } else {
                    pixels[i]
                },
        )
    }
}

/// Blends pixel `(x, y)` towards the pixel of `snapshot` (whose top-left
/// corner lies at `(snapshot_left, snapshot_top)`) over it.
pub fn restore_snapshot_pixel(
    pixels: &mut Vec<u8>,
    width: u32,
    x: u32,
    y: u32,
    snapshot: &[u8],
    snapshot_width: u32,
    snapshot_height: u32,
    snapshot_left: u32,
    snapshot_top: u32,
    coverage: u8,
)
    requires
        snapshot_local(x as int, snapshot_left as int) < snapshot_width && snapshot_local(
            y as int,
            snapshot_top as int,
        ) < snapshot_height ==> {
            &&& pixel_offset(width as int, x as int, y as int) + 4 <= old(pixels)@.len()
            &&& pixel_offset(width as int, x as int, y as int) <= u32::MAX
            &&& pixel_offset(
                snapshot_width as int,
                snapshot_local(x as int, snapshot_left as int),
                snapshot_local(y as int, snapshot_top as int),
            ) + 4 <= snapshot@.len()
            &&& pixel_offset(
                snapshot_width as int,
                snapshot_local(x as int, snapshot_left as int),
                snapshot_local(y as int, snapshot_top as int),
            ) <= u32::MAX
        },
    ensures
        final(pixels)@ == snapshot_restored(
            old(pixels)@,
            width as int,
            x as int,
            y as int,
            snapshot@,
            snapshot_width as int,
            snapshot_height as int,
            snapshot_left as int,
            snapshot_top as int,
            coverage as int,
        ),
{
    let local_x = x.saturating_sub(snapshot_left);
    let local_y = y.saturating_sub(snapshot_top);
    if local_x >= snapshot_width || local_y >= snapshot_height {
        return;
    }
    proof {
        assert(0 <= y * width) by (nonlinear_arith)
            requires
                0 <= y,
                0 <= width,
        ;
        assert(0 <= local_y * snapshot_width) by (nonlinear_arith)
            requires
                0 <= local_y,
                0 <= snapshot_width,
        ;
        assert(pixels@.len() == pixels.len());
        assert(snapshot@.len() == snapshot.len());
    }
    let target = ((y * width + x) * 4) as usize;
    let source = ((local_y * snapshot_width + local_x) * 4) as usize;
    let alpha = coverage as u16;
    let inverse = 255u16 - alpha;
    let ghost before = pixels@;
    let mut channel: usize = 0;
    while channel < 4
        invariant
            target + 4 <= pixels@.len(),
            source + 4 <= snapshot@.len(),
            alpha == coverage,
            inverse == 255 - coverage,
            channel <= 4,
            pixels@.len() == before.len(),
            forall|i: int|
                0 <= i < before.len() ==> #[trigger] pixels@[i] == if target <= i < target
                    + channel {
                    mix(before[i] as int, snapshot@[source + (i - target)] as int, coverage as int)
                        as u8
                } else {
                    before[i]
                },
        decreases 4 - channel,
    {
        proof {
            assert(pixels@.len() == pixels.len());
            assert(snapshot@.len() == snapshot.len());
        }
        let under = pixels[target + channel] as u16;
        let over = snapshot[source + channel] as u16;
        proof {
            assert(under * inverse <= 255 * inverse) by (nonlinear_arith)
                requires
                    under <= 255,
                    0 <= inverse,
            ;
            assert(over * alpha <= 255 * alpha) by (nonlinear_arith)
                requires
                    over <= 255,
                    0 <= alpha,
            ;
            assert(0 <= under * inverse) by (nonlinear_arith)
                requires
                    0 <= under,
                    0 <= inverse,
            ;
            assert(0 <= over * alpha) by (nonlinear_arith)
                requires
                    0 <= over,
                    0 <= alpha,
            ;
        }
        let mixed = (under * inverse + over * alpha) / 255;
        pixels.set(target + channel, mixed as u8);
        channel = channel + 1;
    }
    assert(pixels@ =~= snapshot_restored(
        before,
        width as int,
        x as int,
        y as int,
        snapshot@,
        snapshot_width as int,
        snapshot_height as int,
        snapshot_left as int,
        snapshot_top as int,
        coverage as int,
    ));
}

/// The source coordinate that target coordinate `t` reads when `source`
/// pixels are stretched to `target` pixels.
pub open spec fn nearest(t: int, source: int, target: int) -> int {
    let s = t * source / target;
    if s < source - 1 {
        s
    } else {
        source - 1
    }
}

/// The first `n` bytes of a `target_width`-pixel-wide image resampled from
/// the source image by nearest neighbour.
pub open spec fn resampled(
    src: Seq<u8>,
    source_width: int,
    source_height: int,
    target_width: int,
    target_height: int,
    n: int,
) -> Seq<u8> {
    Seq::new(
        n as nat,
        |i: int|
            src[pixel_offset(
                source_width,
                nearest(column_of(target_width, i), source_width, target_width),
                nearest(row_of(target_width, i), source_height, target_height),
            ) + i % 4],
    )
}

/// Resizes an RGBA image by nearest neighbour; an image already of the
/// target size is copied as it is.
pub fn resize_rgba_nearest(
    pixels: &[u8],
    source_width: u32,
    source_height: u32,
    target_width: u32,
    target_height: u32,
) -> (r: Vec<u8>)
    requires
        !(source_width == target_width && source_height == target_height) ==> {
            &&& source_width * source_height <= 0x4000_0000
            &&& target_width * target_height <= 0x4000_0000
            &&& source_width * source_height * 4 <= pixels@.len()
            &&& 0 < target_height ==> 0 < source_height
            &&& 0 < target_height && 0 < target_width ==> 0 < source_width
        },
    ensures
        r@ == if source_width == target_width && source_height == target_height {
            pixels@
        } else {
            resampled(
                pixels@,
                source_width as int,
                source_height as int,
                target_width as int,
                target_height as int,
                target_width * target_height * 4,
            )
        },
{
    if source_width == target_width && source_height == target_height {
        let mut copy: Vec<u8> = Vec::new();
        copy.extend_from_slice(pixels);
        assert(copy@ =~= pixels@);
        return copy;
    }
    let ghost sw = source_width as int;
    let ghost sh = source_height as int;
    let ghost tw = target_width as int;
    let ghost th = target_height as int;
    let mut resized: Vec<u8> = Vec::new();
    let mut target_y: u32 = 0;
    while target_y < target_height
        invariant
            sw == source_width,
            sh == source_height,
            tw == target_width,
            th == target_height,
            sw * sh <= 0x4000_0000,
            tw * th <= 0x4000_0000,
            sw * sh * 4 <= pixels@.len(),
            0 < th ==> 0 < sh,
            0 < th && 0 < tw ==> 0 < sw,
            target_y <= target_height,
            resized@ == resampled(pixels@, sw, sh, tw, th, target_y * tw * 4),
        decreases target_height - target_y,
    {
        proof {
            assert(target_y * source_height <= 0xffff_ffff_ffff_ffff) by (nonlinear_arith)
                requires
                    target_y <= 0xffff_ffff,
                    source_height <= 0xffff_ffff,
            ;
        }
        let source_y_wide = (target_y as u64 * source_height as u64) / target_height as u64;
        let source_y: u32 = if source_y_wide < (source_height - 1) as u64 {
            source_y_wide as u32
        } else {
            source_height - 1
        };
        let mut target_x: u32 = 0;
        while target_x < target_width
            invariant
                sw == source_width,
                sh == source_height,
                tw == target_width,
                th == target_height,
                sw * sh <= 0x4000_0000,
                sw * sh * 4 <= pixels@.len(),
                0 < sh,
                0 < tw ==> 0 < sw,
                target_y < target_height,
                source_y == nearest(target_y as int, sh, th),
                target_x <= target_width,
                resized@ == resampled(pixels@, sw, sh, tw, th, (target_y * tw + target_x) * 4),
            decreases target_width - target_x,
        {
            proof {
                assert(target_x * source_width <= 0xffff_ffff_ffff_ffff) by (nonlinear_arith)
                    requires
                        target_x <= 0xffff_ffff,
                        source_width <= 0xffff_ffff,
                ;
            }
            let source_x_wide = (target_x as u64 * source_width as u64) / target_width as u64;
            let source_x: u32 = if source_x_wide < (source_width - 1) as u64 {
                source_x_wide as u32
            } else {
                source_width - 1
            };
            proof {
                assert(source_y * sw + source_x < sw * sh) by (nonlinear_arith)
                    requires
                        0 <= source_y < sh,
                        0 <= source_x < sw,
                ;
                assert(pixels@.len() == pixels.len());
            }
            let source_index = ((source_y * source_width + source_x) * 4) as usize;
            let ghost before = resized@;
            let ghost n = (target_y * tw + target_x) * 4;
            resized.push(pixels[source_index]);
            resized.push(pixels[source_index + 1]);
            resized.push(pixels[source_index + 2]);
            resized.push(pixels[source_index + 3]);
            proof {
                let next = resampled(pixels@, sw, sh, tw, th, n + 4);
                assert forall|i: int| 0 <= i < n + 4 implies resized@[i] == next[i] by {
                    if i >= n {
                        lemma_offset_coordinates(tw, target_x as int, target_y as int, i - n);
                    }
                }
                assert(resized@ =~= next);
                assert(n + 4 == (target_y * tw + (target_x + 1)) * 4);
            }
            target_x = target_x + 1;
        }
        assert((target_y * tw + tw) * 4 == (target_y + 1) * tw * 4) by (nonlinear_arith);
        target_y = target_y + 1;
    }
    assert(target_height * tw * 4 == tw * th * 4) by (nonlinear_arith)
        requires
            th == target_height,
    ;
    resized
}

} // verus!
