//! Mipmap generation: the number of levels of an image and the halving of
//! RGBA8 data from one level to the next.

use vstd::prelude::*;
use vstd::arithmetic::power2::{pow2, lemma_pow2_unfold, lemma2_to64};
use vstd::arithmetic::div_mod::{lemma_mod_multiples_vanish, lemma_small_mod};
use crate::image::{
    ImageInfo, ImageView, convert_to_rgba8, image_fits, is_rgba8_of, lemma_rgba_index_decompose,
    lemma_rgba_index_order, rgba_index,
};

verus! {

/// The integer part of the base-two logarithm of `m`; zero for zero.
pub open spec fn floor_log2(m: nat) -> nat
    decreases m,
{
    if m <= 1 {
        0
    } else {
        1 + floor_log2(m / 2)
    }
}

/// The larger of two sizes.
pub open spec fn max_u32(a: u32, b: u32) -> u32 {
    if a >= b { a } else { b }
}

/// The number of mip levels of an image of the given size: one level for
/// each halving of the larger side down to a single pixel.
pub open spec fn mip_level_count(width: u32, height: u32) -> nat {
    floor_log2(max_u32(width, height) as nat) + 1
}

/// `floor_log2` is the exponent of the largest power of two that does not
/// exceed `m`.
pub proof fn lemma_floor_log2_bounds(m: nat)
    requires
        m >= 1,
    ensures
        pow2(floor_log2(m)) <= m < pow2(floor_log2(m) + 1),
    decreases m,
{
    lemma2_to64();
    if m > 1 {
        lemma_floor_log2_bounds(m / 2);
        lemma_pow2_unfold(floor_log2(m));
        lemma_pow2_unfold(floor_log2(m) + 1);
    }
}

/// A number below `pow2(k)` has fewer than `k` halvings, for `k >= 1`.
proof fn lemma_floor_log2_below(m: nat, k: nat)
    requires
        k >= 1,
        m < pow2(k),
    ensures
        floor_log2(m) < k,
    decreases k,
{
    lemma2_to64();
    if m > 1 {
        lemma_pow2_unfold(k);
        if k > 1 {
            lemma_floor_log2_below(m / 2, (k - 1) as nat);
        }
    }
}

/// Calculate the number of mip levels for a given image size.
pub fn mip_levels(width: u32, height: u32) -> (levels: u32)
    ensures
        levels == mip_level_count(width, height),
{
    let m = if width >= height { width } else { height };
    proof {
        lemma2_to64();
        lemma_floor_log2_below(m as nat, 32);
    }
    let mut levels: u32 = 1;
    let mut rest: u32 = m;
    while rest > 1
        invariant
            m == max_u32(width, height),
            floor_log2(m as nat) < 32,
            levels >= 1,
            levels + floor_log2(rest as nat) == floor_log2(m as nat) + 1,
        decreases rest,
    {
        rest = rest / 2;
        levels = levels + 1;
    }
    levels
}

/// The size of the next smaller mip level along one side: half, rounded
/// down, but at least one pixel.
pub open spec fn next_mip_size_spec(size: u32) -> u32 {
    if size / 2 >= 1 { (size / 2) as u32 } else { 1 }
}

/// The size of the next smaller mip level along one side.
pub fn next_mip_size(size: u32) -> (next: u32)
    ensures
        next == next_mip_size_spec(size),
{
    let half = size / 2;
    if half >= 1 { half } else { 1 }
}

/// The number of whole rows of `src_w` RGBA8 pixels in `len` bytes.
pub open spec fn src_rows(len: int, src_w: int) -> int {
    len / (src_w * 4)
}

/// The smaller of two integers.
pub open spec fn min_int(a: int, b: int) -> int {
    if a <= b { a } else { b }
}

/// Index in the source of channel `c` of the pixel at column `col`, row `row`.
pub open spec fn src_index(src_w: int, col: int, row: int, c: int) -> int {
    (row * src_w + col) * 4 + c
}

/// The second column of the 2x2 block under destination column `x`,
/// clamped to the last source column.
pub open spec fn block_col1(src_w: int, x: int) -> int {
    min_int(2 * x + 1, src_w - 1)
}

/// The second row of the 2x2 block under destination row `y`, clamped to the
/// last source row.
pub open spec fn block_row1(rows: int, y: int) -> int {
    min_int(2 * y + 1, rows - 1)
}

/// Every byte read for destination pixel (`x`, `y`) lies inside the source.
pub open spec fn block_in_bounds(len: int, src_w: int, x: int, y: int) -> bool {
    let rows = src_rows(len, src_w);
    &&& src_index(src_w, 2 * x, 2 * y, 3) < len
    &&& src_index(src_w, block_col1(src_w, x), 2 * y, 3) < len
    &&& src_index(src_w, 2 * x, block_row1(rows, y), 3) < len
    &&& src_index(src_w, block_col1(src_w, x), block_row1(rows, y), 3) < len
}

/// `downsample_2x` can run on these arguments: the result fits in memory
/// and, where it has pixels at all, the source has whole rows and every
/// 2x2 block lies inside it.
pub open spec fn downsample_defined(len: int, src_w: int, dst_w: int, dst_h: int) -> bool {
    &&& dst_w * dst_h * 4 <= usize::MAX
    &&& (dst_w == 0 || dst_h == 0 || {
        &&& src_w >= 1
        &&& src_w * 4 <= usize::MAX
        &&& src_rows(len, src_w) >= 1
        &&& forall|x: int, y: int|
            0 <= x < dst_w && 0 <= y < dst_h ==> #[trigger] block_in_bounds(len, src_w, x, y)
    })
}

/// Channel `c` of destination pixel (`x`, `y`): the mean, rounded down, of
/// that channel over the 2x2 source block, clamped at the last row and column.
pub open spec fn downsample_channel(src: Seq<u8>, src_w: int, x: int, y: int, c: int) -> u8 {
    let rows = src_rows(src.len() as int, src_w);
    let c1 = block_col1(src_w, x);
    let r1 = block_row1(rows, y);
    ((src[src_index(src_w, 2 * x, 2 * y, c)] + src[src_index(src_w, c1, 2 * y, c)]
        + src[src_index(src_w, 2 * x, r1, c)] + src[src_index(src_w, c1, r1, c)]) / 4) as u8
}

/// `out` is `src` (rows of `src_w` RGBA8 pixels) reduced to `dst_w` by
/// `dst_h` pixels by averaging 2x2 blocks.
pub open spec fn is_downsampled(out: Seq<u8>, src: Seq<u8>, src_w: int, dst_w: int, dst_h: int) -> bool {
    &&& out.len() == dst_w * dst_h * 4
    &&& forall|x: int, y: int, c: int|
        0 <= x < dst_w && 0 <= y < dst_h && 0 <= c < 4 ==> out[#[trigger] rgba_index(dst_w, x, y, c)]
            == downsample_channel(src, src_w, x, y, c)
}

/// Row and column of a block lie before its last byte, so every partial
/// product of the index lies below the source length.
proof fn lemma_src_index_parts(src_w: int, col: int, row: int, len: int)
    requires
        src_w >= 1,
        col >= 0,
        row >= 0,
        src_index(src_w, col, row, 3) < len,
    ensures
        0 <= row * src_w <= row * src_w + col,
        row <= row * src_w,
        (row * src_w + col) * 4 + 3 < len,
{
    assert(row <= row * src_w) by (nonlinear_arith)
        requires
            src_w >= 1,
            row >= 0,
    ;
}

/// Downsample RGBA8 data by averaging 2x2 blocks.
pub fn downsample_2x(src: &[u8], src_w: u32, _src_h: u32, dst_w: u32, dst_h: u32) -> (dst: Vec<u8>)
    requires
        downsample_defined(src@.len() as int, src_w as int, dst_w as int, dst_h as int),
    ensures
        is_downsampled(dst@, src@, src_w as int, dst_w as int, dst_h as int),
{
    let src_w = src_w as usize;
    let dst_w_usize = dst_w as usize;
    let dst_h_usize = dst_h as usize;
    let len = src.len();
    let ghost sw = src_w as int;
    let ghost dw = dst_w as int;
    let mut dst: Vec<u8> = Vec::new();

    let mut y: usize = 0;
    while y < dst_h_usize
        invariant
            len == src@.len(),
            src_w == sw,
            dst_w_usize == dw,
            dst_h_usize == dst_h,
            downsample_defined(len as int, sw, dw, dst_h as int),
            y <= dst_h_usize,
            dst@.len() == rgba_index(dw, 0, y as int, 0),
            forall|xx: int, yy: int, c: int|
                0 <= xx < dw && 0 <= yy < y && 0 <= c < 4 ==> dst@[#[trigger] rgba_index(dw, xx, yy, c)]
                    == downsample_channel(src@, sw, xx, yy, c),
        decreases dst_h_usize - y,
    {
        let mut x: usize = 0;
        while x < dst_w_usize
            invariant
                len == src@.len(),
                src_w == sw,
                dst_w_usize == dw,
                dst_h_usize == dst_h,
                downsample_defined(len as int, sw, dw, dst_h as int),
                y < dst_h_usize,
                x <= dst_w_usize,
                dst@.len() == rgba_index(dw, x as int, y as int, 0),
                forall|xx: int, yy: int, c: int|
                    0 <= xx < dw && 0 <= yy && (yy < y || (yy == y && xx < x)) && 0 <= c < 4
                        ==> dst@[#[trigger] rgba_index(dw, xx, yy, c)] == downsample_channel(
                        src@,
                        sw,
                        xx,
                        yy,
                        c,
                    ),
            decreases dst_w_usize - x,
        {
            let ghost rows = src_rows(len as int, sw);
            proof {
                assert(block_in_bounds(len as int, sw, x as int, y as int));
                let xi = x as int;
                let yi = y as int;
                lemma_src_index_parts(sw, 2 * xi, 2 * yi, len as int);
                lemma_src_index_parts(sw, block_col1(sw, xi), 2 * yi, len as int);
                lemma_src_index_parts(sw, 2 * xi, block_row1(rows, yi), len as int);
                lemma_src_index_parts(sw, block_col1(sw, xi), block_row1(rows, yi), len as int);
            }
            let sx = x * 2;
            let sy = y * 2;
            let rows_now = len / (src_w * 4);
            let col1 = if sx + 1 <= src_w - 1 { sx + 1 } else { src_w - 1 };
            let row1 = if sy + 1 <= rows_now - 1 { sy + 1 } else { rows_now - 1 };

            let s00 = (sy * src_w + sx) * 4;
            let s10 = (sy * src_w + col1) * 4;
            let s01 = (row1 * src_w + sx) * 4;
            let s11 = (row1 * src_w + col1) * 4;

            let ghost before = dst@;
            let mut c: usize = 0;
            while c < 4
                invariant
                    len == src@.len(),
                    c <= 4,
                    s00 + 3 < len,
                    s10 + 3 < len,
                    s01 + 3 < len,
                    s11 + 3 < len,
                    s00 == src_index(sw, 2 * x, 2 * y, 0),
                    s10 == src_index(sw, block_col1(sw, x as int), 2 * y, 0),
                    s01 == src_index(sw, 2 * x, block_row1(src_rows(len as int, sw), y as int), 0),
                    s11 == src_index(
                        sw,
                        block_col1(sw, x as int),
                        block_row1(src_rows(len as int, sw), y as int),
                        0,
                    ),
                    dst@.len() == before.len() + c,
                    forall|k: int| 0 <= k < before.len() ==> dst@[k] == before[k],
                    forall|k: int|
                        0 <= k < c ==> dst@[before.len() + k] == downsample_channel(
                            src@,
                            sw,
                            x as int,
                            y as int,
                            k,
                        ),
                decreases 4 - c,
            {
                let avg = (src[s00 + c] as u16 + src[s10 + c] as u16 + src[s01 + c] as u16
                    + src[s11 + c] as u16) / 4;
                dst.push(avg as u8);
                c = c + 1;
            }
            proof {
                assert forall|xx: int, yy: int, k: int|
                    0 <= xx < dw && 0 <= yy && (yy < y || (yy == y && xx < x + 1)) && 0 <= k < 4
                        implies dst@[#[trigger] rgba_index(dw, xx, yy, k)] == downsample_channel(
                        src@,
                        sw,
                        xx,
                        yy,
                        k,
                    ) by {
                    if yy == y && xx == x {
                        assert(rgba_index(dw, xx, yy, k) == before.len() + k);
                    } else {
                        lemma_rgba_index_order(dw, xx, yy, x as int, y as int, k);
                    }
                }
            }
            x = x + 1;
        }
        proof {
            let yi = y as int;
            assert((yi * dw + dw) * 4 == ((yi + 1) * dw + 0) * 4) by (nonlinear_arith);
        }
        y = y + 1;
    }
    proof {
        let h = dst_h as int;
        assert((h * dw + 0) * 4 == dw * h * 4) by (nonlinear_arith);
    }
    dst
}

/// One level of a mipmap: its size in pixels and its RGBA8 bytes.
pub struct MipLevel {
    pub width: u32,
    pub height: u32,
    pub data: Vec<u8>,
}

/// `levels` is the full mip chain of the image that `info` lays out over
/// `data`: the RGBA8 form of the image first, then each level the 2x2
/// average of the one before, at the next smaller size, down to one pixel.
pub open spec fn is_mip_chain(levels: Seq<MipLevel>, info: ImageInfo, data: Seq<u8>) -> bool {
    &&& levels.len() == mip_level_count(info.size.x, info.size.y)
    &&& levels[0].width == info.size.x
    &&& levels[0].height == info.size.y
    &&& is_rgba8_of(levels[0].data@, info, data)
    &&& forall|i: int|
        1 <= i < levels.len() ==> {
            &&& #[trigger] levels[i].width == next_mip_size_spec(levels[i - 1].width)
            &&& levels[i].height == next_mip_size_spec(levels[i - 1].height)
            &&& is_downsampled(
                levels[i].data@,
                levels[i - 1].data@,
                levels[i - 1].width as int,
                levels[i].width as int,
                levels[i].height as int,
            )
        }
}

/// Halving a packed `w` by `h` RGBA8 image to the next mip size reads
/// only bytes inside it, and the result is no larger.
pub proof fn lemma_next_level_defined(w: u32, h: u32)
    requires
        w >= 1,
        h >= 1,
        w * h * 4 <= usize::MAX,
    ensures
        downsample_defined(
            w * h * 4,
            w as int,
            next_mip_size_spec(w) as int,
            next_mip_size_spec(h) as int,
        ),
        next_mip_size_spec(w) * next_mip_size_spec(h) * 4 <= w * h * 4,
{
    let wi = w as int;
    let hi = h as int;
    let len = wi * hi * 4;
    let dw = next_mip_size_spec(w) as int;
    let dh = next_mip_size_spec(h) as int;
    assert(dw * dh * 4 <= wi * hi * 4) by (nonlinear_arith)
        requires
            1 <= dw <= wi,
            1 <= dh <= hi,
    ;
    assert(wi * 4 <= wi * hi * 4) by (nonlinear_arith)
        requires
            wi >= 1,
            hi >= 1,
    ;
    assert(src_rows(len, wi) == hi) by (nonlinear_arith)
        requires
            len == wi * hi * 4,
            wi >= 1,
    {
        assert(len == hi * (wi * 4));
    }
    assert forall|x: int, y: int| 0 <= x < dw && 0 <= y < dh implies #[trigger] block_in_bounds(
        len,
        wi,
        x,
        y,
    ) by {
        assert(2 * x <= wi - 1);
        assert(2 * y <= hi - 1);
        assert forall|col: int, row: int| 0 <= col <= wi - 1 && 0 <= row <= hi - 1 implies src_index(
            wi,
            col,
            row,
            3,
        ) < len by {
            assert((row * wi + col) * 4 + 3 < wi * hi * 4) by (nonlinear_arith)
                requires
                    0 <= col <= wi - 1,
                    0 <= row <= hi - 1,
            ;
        }
        assert(src_index(wi, 2 * x, 2 * y, 3) < len);
        assert(src_index(wi, block_col1(wi, x), 2 * y, 3) < len);
        assert(src_index(wi, 2 * x, block_row1(hi, y), 3) < len);
        assert(src_index(wi, block_col1(wi, x), block_row1(hi, y), 3) < len);
    }
}

/// Halving both sides removes one halving from the larger side, as long as
/// it is at least two pixels long.
pub proof fn lemma_next_level_log(w: u32, h: u32)
    requires
        max_u32(w, h) >= 2,
    ensures
        floor_log2(max_u32(next_mip_size_spec(w), next_mip_size_spec(h)) as nat) + 1 == floor_log2(
            max_u32(w, h) as nat,
        ),
{
    let m = max_u32(w, h);
    assert(max_u32(next_mip_size_spec(w), next_mip_size_spec(h)) == m / 2);
}

/// Build the full mip chain of an image on the CPU: the RGBA8 conversion of
/// the image, then each smaller level by averaging 2x2 blocks of the one
/// before.
pub fn mip_chain(image: &ImageView) -> (levels: Vec<MipLevel>)
    requires
        image_fits(image.info_spec(), image.data_spec().len() as int),
        image.info_spec().size.x >= 1,
        image.info_spec().size.y >= 1,
    ensures
        is_mip_chain(levels@, image.info_spec(), image.data_spec()),
        levels@.last().width == 1,
        levels@.last().height == 1,
{
    let info = image.info();
    let width = info.size.x;
    let height = info.size.y;
    let level_count = mip_levels(width, height);
    let rgba_data = convert_to_rgba8(image);
    let mut levels: Vec<MipLevel> = Vec::new();
    levels.push(MipLevel { width, height, data: rgba_data });
    let mut mip_w = width;
    let mut mip_h = height;
    let mut level: u32 = 1;
    while level < level_count
        invariant
            info == image.info_spec(),
            width == info.size.x,
            height == info.size.y,
            image_fits(info, image.data_spec().len() as int),
            level_count == mip_level_count(width, height),
            1 <= level <= level_count,
            levels@.len() == level,
            levels@[0].width == width,
            levels@[0].height == height,
            is_rgba8_of(levels@[0].data@, info, image.data_spec()),
            forall|i: int|
                1 <= i < levels@.len() ==> {
                    &&& #[trigger] levels@[i].width == next_mip_size_spec(levels@[i - 1].width)
                    &&& levels@[i].height == next_mip_size_spec(levels@[i - 1].height)
                    &&& is_downsampled(
                        levels@[i].data@,
                        levels@[i - 1].data@,
                        levels@[i - 1].width as int,
                        levels@[i].width as int,
                        levels@[i].height as int,
                    )
                },
            mip_w == levels@.last().width,
            mip_h == levels@.last().height,
            mip_w >= 1,
            mip_h >= 1,
            levels@.last().data@.len() == mip_w * mip_h * 4,
            mip_w * mip_h * 4 <= usize::MAX,
            floor_log2(max_u32(mip_w, mip_h) as nat) + level == level_count,
        decreases level_count - level,
    {
        proof {
            lemma_next_level_defined(mip_w, mip_h);
            lemma_next_level_log(mip_w, mip_h);
        }
        let next_w = next_mip_size(mip_w);
        let next_h = next_mip_size(mip_h);
        let next = downsample_2x(levels[levels.len() - 1].data.as_slice(), mip_w, mip_h, next_w, next_h);
        let ghost prev = levels@;
        levels.push(MipLevel { width: next_w, height: next_h, data: next });
        proof {
            assert forall|i: int| 1 <= i < levels@.len() implies {
                &&& #[trigger] levels@[i].width == next_mip_size_spec(levels@[i - 1].width)
                &&& levels@[i].height == next_mip_size_spec(levels@[i - 1].height)
                &&& is_downsampled(
                    levels@[i].data@,
                    levels@[i - 1].data@,
                    levels@[i - 1].width as int,
                    levels@[i].width as int,
                    levels@[i].height as int,
                )
            } by {
                if i < prev.len() {
                    assert(levels@[i] == prev[i]);
                    assert(levels@[i - 1] == prev[i - 1]);
                }
            }
        }
        mip_w = next_w;
        mip_h = next_h;
        level = level + 1;
    }
    levels
}

/// An image has `mip_level_count` levels because halving its larger side
/// that many times less one leaves a single pixel: the larger side lies
/// between the two powers of two around that count.
pub proof fn lemma_mip_level_count_bounds(width: u32, height: u32)
    requires
        width >= 1 || height >= 1,
    ensures
        pow2((mip_level_count(width, height) - 1) as nat) <= max_u32(width, height) < pow2(
            mip_level_count(width, height),
        ),
{
    lemma_floor_log2_bounds(max_u32(width, height) as nat);
}

/// The channel of byte `4 * n + c` is `c`.
proof fn lemma_channel_of_index(n: int, c: int)
    requires
        n >= 0,
        0 <= c < 4,
    ensures
        (n * 4 + c) % 4 == c,
{
    lemma_mod_multiples_vanish(n, c, 4);
    lemma_small_mod(c as nat, 4);
    assert(n * 4 == 4 * n);
}

/// Every pixel of `data` has the colour `px`.
pub open spec fn is_uniform(data: Seq<u8>, px: Seq<u8>) -> bool {
    &&& px.len() == 4
    &&& forall|k: int| 0 <= k < data.len() ==> #[trigger] data[k] == px[k % 4]
}

/// Halving an image of a single colour gives an image of the same colour.
pub proof fn lemma_downsample_uniform(out: Seq<u8>, src: Seq<u8>, src_w: int, dst_w: int, dst_h: int, px: Seq<u8>)
    requires
        dst_w >= 0,
        dst_h >= 0,
        downsample_defined(src.len() as int, src_w, dst_w, dst_h),
        is_downsampled(out, src, src_w, dst_w, dst_h),
        is_uniform(src, px),
    ensures
        is_uniform(out, px),
{
    assert forall|k: int| 0 <= k < out.len() implies #[trigger] out[k] == px[k % 4] by {
        let (x, y, c) = lemma_rgba_index_decompose(dst_w, dst_h, k);
        let len = src.len() as int;
        let rows = src_rows(len, src_w);
        assert(block_in_bounds(len, src_w, x, y));
        let c1 = block_col1(src_w, x);
        let r1 = block_row1(rows, y);
        assert(rows >= 1);
        lemma_channel_of_index(y * dst_w + x, c);
        assert forall|col: int, row: int|
            0 <= col && 0 <= row && src_index(src_w, col, row, 3) < len implies #[trigger] src[src_index(
            src_w,
            col,
            row,
            c,
        )] == px[c] by {
            assert(row * src_w + col >= 0) by (nonlinear_arith)
                requires
                    0 <= col,
                    0 <= row,
                    src_w >= 1,
            ;
            lemma_channel_of_index(row * src_w + col, c);
        }
        assert(src[src_index(src_w, 2 * x, 2 * y, c)] == px[c]);
        assert(src[src_index(src_w, c1, 2 * y, c)] == px[c]);
        assert(src[src_index(src_w, 2 * x, r1, c)] == px[c]);
        assert(src[src_index(src_w, c1, r1, c)] == px[c]);
    }
}

/// Each channel of a halved image lies between the smallest and the largest
/// value of that channel in its 2x2 source block.
pub proof fn lemma_downsample_between_block_values(src: Seq<u8>, src_w: int, x: int, y: int, c: int)
    ensures
        ({
            let rows = src_rows(src.len() as int, src_w);
            let v = downsample_channel(src, src_w, x, y, c);
            let a = src[src_index(src_w, 2 * x, 2 * y, c)];
            let b = src[src_index(src_w, block_col1(src_w, x), 2 * y, c)];
            let e = src[src_index(src_w, 2 * x, block_row1(rows, y), c)];
            let f = src[src_index(src_w, block_col1(src_w, x), block_row1(rows, y), c)];
            &&& (v >= a || v >= b || v >= e || v >= f)
            &&& (v <= a || v <= b || v <= e || v <= f)
            &&& (a == b && b == e && e == f ==> v == a)
        }),
{
}

} // verus!
