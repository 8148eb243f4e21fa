//! Image descriptions and the conversion of any supported pixel format to
//! tightly packed RGBA8 bytes.

use vstd::prelude::*;
use vstd::arithmetic::div_mod::{lemma_fundamental_div_mod, lemma_mod_bound};

verus! {

/// Whether the colour channels of an image are premultiplied by its alpha.
#[derive(Clone, Copy, Debug, PartialEq, Eq, Structural)]
pub enum Alpha {
    /// The colour channels are independent of the alpha channel.
    Unpremultiplied,
    /// The colour channels have been multiplied by the alpha channel.
    Premultiplied,
}

/// The layout of the bytes of one pixel.
#[derive(Clone, Copy, Debug, PartialEq, Eq, Structural)]
pub enum PixelFormat {
    /// One byte of grey.
    Mono8,
    /// One byte of grey followed by one byte of alpha.
    MonoAlpha8(Alpha),
    /// Blue, green, red: one byte each.
    Bgr8,
    /// Blue, green, red, alpha: one byte each.
    Bgra8(Alpha),
    /// Red, green, blue: one byte each.
    Rgb8,
    /// Red, green, blue, alpha: one byte each.
    Rgba8(Alpha),
}

/// A pair of unsigned integers: a size in pixels or a stride in bytes.
#[derive(Clone, Copy, Debug, PartialEq, Eq, Structural)]
pub struct UVec2 {
    pub x: u32,
    pub y: u32,
}

/// A pair of signed integers: a position in pixels.
#[derive(Clone, Copy, Debug, PartialEq, Eq, Structural)]
pub struct IVec2 {
    pub x: i32,
    pub y: i32,
}

/// The layout of an image in memory.
#[derive(Clone, Copy, Debug, PartialEq, Eq, Structural)]
pub struct ImageInfo {
    /// The format of one pixel.
    pub pixel_format: PixelFormat,
    /// Width (`x`) and height (`y`) in pixels.
    pub size: UVec2,
    /// Bytes from one pixel to the next in a row (`x`) and from one row to
    /// the next (`y`).
    pub stride: UVec2,
}

impl ImageInfo {
    /// Whether an image of this layout can be converted from `len` bytes of
    /// data: the packed result fits in memory and every pixel lies inside
    /// the data.
    pub fn fits(&self, len: usize) -> (ok: bool)
        ensures
            ok == image_fits(*self, len as int),
    {
        let w = self.size.x as u128;
        let h = self.size.y as u128;
        let sx = self.stride.x as u128;
        let sy = self.stride.y as u128;
        proof {
            assert(w * h * 4 <= 0xffff_ffff * 0xffff_ffff * 4) by (nonlinear_arith)
                requires
                    w <= 0xffff_ffff,
                    h <= 0xffff_ffff,
            ;
        }
        let packed = w * h * 4;
        if packed > usize::MAX as u128 {
            return false;
        }
        if w == 0 || h == 0 {
            return true;
        }
        proof {
            assert((h - 1) * sy <= 0xffff_ffff * 0xffff_ffff) by (nonlinear_arith)
                requires
                    h <= 0xffff_ffff,
                    sy <= 0xffff_ffff,
                    h >= 1,
            ;
            assert((w - 1) * sx <= 0xffff_ffff * 0xffff_ffff) by (nonlinear_arith)
                requires
                    w <= 0xffff_ffff,
                    sx <= 0xffff_ffff,
                    w >= 1,
            ;
        }
        let last = (h - 1) * sy + (w - 1) * sx + bytes_per_pixel_of(self.pixel_format) as u128;
        last <= len as u128
    }
}

/// The number of bytes that one pixel of the format occupies.
pub fn bytes_per_pixel_of(format: PixelFormat) -> (n: usize)
    ensures
        n == bytes_per_pixel(format),
{
    match format {
        PixelFormat::Mono8 => 1,
        PixelFormat::MonoAlpha8(_) => 2,
        PixelFormat::Bgr8 => 3,
        PixelFormat::Rgb8 => 3,
        PixelFormat::Bgra8(_) => 4,
        PixelFormat::Rgba8(_) => 4,
    }
}

/// A borrowed image: its layout and its bytes.
pub struct ImageView<'a> {
    info: ImageInfo,
    data: &'a [u8],
}

impl<'a> ImageView<'a> {
    /// Wrap a layout and the bytes it describes.
    pub fn new(info: ImageInfo, data: &'a [u8]) -> (view: ImageView<'a>)
        ensures
            view.info_spec() == info,
            view.data_spec() == data@,
    {
        ImageView { info, data }
    }

    pub closed spec fn info_spec(&self) -> ImageInfo {
        self.info
    }

    pub closed spec fn data_spec(&self) -> Seq<u8> {
        self.data@
    }

    /// The layout of the image.
    pub fn info(&self) -> (info: ImageInfo)
        ensures
            info == self.info_spec(),
    {
        self.info
    }

    /// The bytes of the image.
    pub fn data(&self) -> (data: &'a [u8])
        ensures
            data@ == self.data_spec(),
    {
        self.data
    }
}

/// The number of bytes that one pixel of the format occupies.
pub open spec fn bytes_per_pixel(format: PixelFormat) -> int {
    match format {
        PixelFormat::Mono8 => 1,
        PixelFormat::MonoAlpha8(_) => 2,
        PixelFormat::Bgr8 => 3,
        PixelFormat::Rgb8 => 3,
        PixelFormat::Bgra8(_) => 4,
        PixelFormat::Rgba8(_) => 4,
    }
}

/// The offset in the source bytes of the pixel at column `x`, row `y`.
pub open spec fn pixel_offset(info: ImageInfo, x: int, y: int) -> int {
    y * info.stride.y + x * info.stride.x
}

/// The index in tightly packed RGBA8 bytes of channel `c` of the pixel at
/// column `x`, row `y` of an image `w` pixels wide.
pub open spec fn rgba_index(w: int, x: int, y: int, c: int) -> int {
    (y * w + x) * 4 + c
}

/// Undo premultiplication: `c * 255 / a`, rounded down, of which the
/// conversion keeps the low eight bits; zero where the alpha is zero.
pub open spec fn unpremultiply(c: u8, a: u8) -> u8 {
    if a == 0 {
        0
    } else {
        ((c * 255int) / (a as int)) as u8
    }
}

/// Channel `c` (0 red, 1 green, 2 blue, 3 alpha) of the RGBA8 form of the
/// pixel whose bytes start at offset `s` of `d`.
pub open spec fn rgba8_channel(format: PixelFormat, d: Seq<u8>, s: int, c: int) -> u8 {
    match format {
        PixelFormat::Mono8 => if c < 3 { d[s] } else { 255 },
        PixelFormat::MonoAlpha8(Alpha::Unpremultiplied) => if c < 3 { d[s] } else { d[s + 1] },
        PixelFormat::MonoAlpha8(Alpha::Premultiplied) => if c < 3 {
            unpremultiply(d[s], d[s + 1])
        } else {
            d[s + 1]
        },
        PixelFormat::Bgr8 => if c < 3 { d[s + 2 - c] } else { 255 },
        PixelFormat::Bgra8(Alpha::Unpremultiplied) => if c < 3 { d[s + 2 - c] } else { d[s + 3] },
        PixelFormat::Bgra8(Alpha::Premultiplied) => if c < 3 {
            unpremultiply(d[s + 2 - c], d[s + 3])
        } else {
            d[s + 3]
        },
        PixelFormat::Rgb8 => if c < 3 { d[s + c] } else { 255 },
        PixelFormat::Rgba8(Alpha::Unpremultiplied) => d[s + c],
        PixelFormat::Rgba8(Alpha::Premultiplied) => if c < 3 {
            unpremultiply(d[s + c], d[s + 3])
        } else {
            d[s + 3]
        },
    }
}

/// The image can be converted: the packed result fits in memory, and every
/// byte of every pixel lies inside `len` bytes of data.
pub open spec fn image_fits(info: ImageInfo, len: int) -> bool {
    &&& info.size.x * info.size.y * 4 <= usize::MAX
    &&& (info.size.x == 0 || info.size.y == 0 || pixel_offset(
        info,
        info.size.x - 1,
        info.size.y - 1,
    ) + bytes_per_pixel(info.pixel_format) <= len)
}

/// `out` is the tightly packed RGBA8 form of the `w` by `h` image whose
/// pixels are read from `data` through `info`.
pub open spec fn is_rgba8_of(out: Seq<u8>, info: ImageInfo, data: Seq<u8>) -> bool {
    let w = info.size.x as int;
    let h = info.size.y as int;
    &&& out.len() == w * h * 4
    &&& forall|x: int, y: int, c: int|
        0 <= x < w && 0 <= y < h && 0 <= c < 4 ==> out[#[trigger] rgba_index(w, x, y, c)]
            == rgba8_channel(info.pixel_format, data, pixel_offset(info, x, y), c)
}

/// Each pixel of a packed `w`-wide image comes before all pixels of later
/// rows and all later pixels of its own row.
pub proof fn lemma_rgba_index_order(w: int, x: int, y: int, x2: int, y2: int, c: int)
    requires
        0 <= x < w,
        0 <= x2 < w,
        0 <= y,
        0 <= y2,
        0 <= c < 4,
        y < y2 || (y == y2 && x < x2),
    ensures
        rgba_index(w, x, y, c) < rgba_index(w, x2, y2, 0),
{
    if y < y2 {
        assert((y + 1) * w <= y2 * w) by (nonlinear_arith)
            requires
                y + 1 <= y2,
                0 <= w,
        ;
        assert((y + 1) * w == y * w + w) by (nonlinear_arith);
    }
}

/// The pixel at (`x`, `y`) lies no further into the data than the last one.
proof fn lemma_pixel_offset_bound(info: ImageInfo, x: int, y: int)
    requires
        0 <= x < info.size.x,
        0 <= y < info.size.y,
    ensures
        0 <= pixel_offset(info, x, y) <= pixel_offset(info, info.size.x - 1, info.size.y - 1),
        0 <= y * info.stride.y <= pixel_offset(info, x, y),
        0 <= x * info.stride.x <= pixel_offset(info, x, y),
{
    let sx = info.stride.x as int;
    let sy = info.stride.y as int;
    assert(0 <= y * sy <= (info.size.y - 1) * sy) by (nonlinear_arith)
        requires
            0 <= y <= info.size.y - 1,
            0 <= sy,
    ;
    assert(0 <= x * sx <= (info.size.x - 1) * sx) by (nonlinear_arith)
        requires
            0 <= x <= info.size.x - 1,
            0 <= sx,
    ;
}

/// The RGBA8 form of the pixel whose bytes start at `src`.
fn pixel_to_rgba8(format: PixelFormat, data: &[u8], src: usize) -> (px: [u8; 4])
    requires
        src + bytes_per_pixel(format) <= data@.len() <= usize::MAX,
    ensures
        forall|c: int| 0 <= c < 4 ==> px@[c] == rgba8_channel(format, data@, src as int, c),
{
    match format {
        PixelFormat::Mono8 => {
            let v = data[src];
            [v, v, v, 255]
        },
        PixelFormat::MonoAlpha8(Alpha::Unpremultiplied) => {
            let v = data[src];
            let a = data[src + 1];
            [v, v, v, a]
        },
        PixelFormat::MonoAlpha8(Alpha::Premultiplied) => {
            let a = data[src + 1];
            let v = unpremultiply_channel(data[src], a);
            [v, v, v, a]
        },
        PixelFormat::Bgr8 => [data[src + 2], data[src + 1], data[src], 255],
        PixelFormat::Bgra8(Alpha::Unpremultiplied) => [
            data[src + 2],
            data[src + 1],
            data[src],
            data[src + 3],
        ],
        PixelFormat::Bgra8(Alpha::Premultiplied) => {
            let a = data[src + 3];
            [
                unpremultiply_channel(data[src + 2], a),
                unpremultiply_channel(data[src + 1], a),
                unpremultiply_channel(data[src], a),
                a,
            ]
        },
        PixelFormat::Rgb8 => [data[src], data[src + 1], data[src + 2], 255],
        PixelFormat::Rgba8(Alpha::Unpremultiplied) => [
            data[src],
            data[src + 1],
            data[src + 2],
            data[src + 3],
        ],
        PixelFormat::Rgba8(Alpha::Premultiplied) => {
            let a = data[src + 3];
            [
                unpremultiply_channel(data[src], a),
                unpremultiply_channel(data[src + 1], a),
                unpremultiply_channel(data[src + 2], a),
                a,
            ]
        },
    }
}

/// Undo the premultiplication of one colour channel by the alpha `a`.
fn unpremultiply_channel(c: u8, a: u8) -> (v: u8)
    ensures
        v == unpremultiply(c, a),
{
    if a == 0 {
        0
    } else {
        assert(c * 255 <= 255 * 255) by (nonlinear_arith)
            requires
                c <= 255,
        ;
        ((c as u16 * 255) / a as u16) as u8
    }
}

/// Convert any supported pixel format to tightly-packed RGBA8 bytes.
pub fn convert_to_rgba8(image: &ImageView) -> (rgba: Vec<u8>)
    requires
        image_fits(image.info_spec(), image.data_spec().len() as int),
    ensures
        is_rgba8_of(rgba@, image.info_spec(), image.data_spec()),
{
    let info = image.info();
    let data = image.data();
    let len = data.len();
    let width = info.size.x as usize;
    let height = info.size.y as usize;
    let stride_x = info.stride.x as usize;
    let stride_y = info.stride.y as usize;
    let ghost w = width as int;
    let ghost fmt = info.pixel_format;

    let mut rgba: Vec<u8> = Vec::new();
    let mut y: usize = 0;
    while y < height
        invariant
            info == image.info_spec(),
            data@ == image.data_spec(),
            len == data@.len(),
            image_fits(info, data@.len() as int),
            width == info.size.x,
            height == info.size.y,
            stride_x == info.stride.x,
            stride_y == info.stride.y,
            w == width,
            fmt == info.pixel_format,
            y <= height,
            rgba@.len() == rgba_index(w, 0, y as int, 0),
            forall|xx: int, yy: int, c: int|
                0 <= xx < w && 0 <= yy < y && 0 <= c < 4 ==> rgba@[#[trigger] rgba_index(
                    w,
                    xx,
                    yy,
                    c,
                )] == rgba8_channel(fmt, data@, pixel_offset(info, xx, yy), c),
        decreases height - y,
    {
        let mut x: usize = 0;
        while x < width
            invariant
                info == image.info_spec(),
                data@ == image.data_spec(),
                len == data@.len(),
                image_fits(info, data@.len() as int),
                width == info.size.x,
                height == info.size.y,
                stride_x == info.stride.x,
                stride_y == info.stride.y,
                w == width,
                fmt == info.pixel_format,
                y < height,
                x <= width,
                rgba@.len() == rgba_index(w, x as int, y as int, 0),
                forall|xx: int, yy: int, c: int|
                    0 <= xx < w && 0 <= yy && (yy < y || (yy == y && xx < x)) && 0 <= c < 4
                        ==> rgba@[#[trigger] rgba_index(w, xx, yy, c)] == rgba8_channel(
                        fmt,
                        data@,
                        pixel_offset(info, xx, yy),
                        c,
                    ),
            decreases width - x,
        {
            proof {
                lemma_pixel_offset_bound(info, x as int, y as int);
            }
            let src = y * stride_y + x * stride_x;
            let px = pixel_to_rgba8(info.pixel_format, data, src);
            let ghost before = rgba@;
            rgba.push(px[0]);
            rgba.push(px[1]);
            rgba.push(px[2]);
            rgba.push(px[3]);
            proof {
                assert forall|xx: int, yy: int, c: int|
                    0 <= xx < w && 0 <= yy && (yy < y || (yy == y && xx < x + 1)) && 0 <= c < 4
                        implies rgba@[#[trigger] rgba_index(w, xx, yy, c)] == rgba8_channel(
                        fmt,
                        data@,
                        pixel_offset(info, xx, yy),
                        c,
                    ) by {
                    if yy == y && xx == x {
                    } else {
                        lemma_rgba_index_order(w, xx, yy, x as int, y as int, c);
                        assert(rgba@[rgba_index(w, xx, yy, c)] == before[rgba_index(w, xx, yy, c)]);
                    }
                }
            }
            x = x + 1;
        }
        proof {
            let yi = y as int;
            assert((yi * w + w) * 4 == ((yi + 1) * w + 0) * 4) by (nonlinear_arith);
        }
        y = y + 1;
    }
    proof {
        let h = height as int;
        assert((h * w + 0) * 4 == w * h * 4) by (nonlinear_arith);
    }
    rgba
}

/// Every byte of a packed `w` by `h` RGBA8 image is one channel of one
/// pixel: `k` splits into column, row and channel.
pub proof fn lemma_rgba_index_decompose(w: int, h: int, k: int) -> (pos: (int, int, int))
    requires
        0 <= w,
        0 <= h,
        0 <= k < w * h * 4,
    ensures
        0 <= pos.0 < w,
        0 <= pos.1 < h,
        0 <= pos.2 < 4,
        rgba_index(w, pos.0, pos.1, pos.2) == k,
{
    assert(w > 0 && h > 0) by (nonlinear_arith)
        requires
            0 <= w,
            0 <= h,
            0 <= k < w * h * 4,
    ;
    let p = k / 4;
    let c = k % 4;
    lemma_fundamental_div_mod(k, 4);
    lemma_mod_bound(k, 4);
    let x = p % w;
    let y = p / w;
    lemma_fundamental_div_mod(p, w);
    lemma_mod_bound(p, w);
    assert(0 <= y < h) by (nonlinear_arith)
        requires
            p == w * y + x,
            0 <= x < w,
            0 <= p,
            p * 4 <= k,
            k < w * h * 4,
    ;
    (x, y, c)
}

/// An RGBA8 image whose rows follow each other without gaps converts to
/// itself.
pub proof fn lemma_packed_rgba8_converts_to_itself(out: Seq<u8>, info: ImageInfo, data: Seq<u8>)
    requires
        info.pixel_format == PixelFormat::Rgba8(Alpha::Unpremultiplied),
        info.stride.x == 4,
        info.stride.y == 4 * info.size.x,
        data.len() == info.size.x * info.size.y * 4,
        is_rgba8_of(out, info, data),
    ensures
        out == data,
{
    let w = info.size.x as int;
    let h = info.size.y as int;
    assert forall|k: int| 0 <= k < out.len() implies out[k] == data[k] by {
        let (x, y, c) = lemma_rgba_index_decompose(w, h, k);
        assert(pixel_offset(info, x, y) + c == rgba_index(w, x, y, c)) by (nonlinear_arith)
            requires
                info.stride.x == 4,
                info.stride.y == 4 * w,
        ;
    }
    assert(out =~= data);
}

/// The premultiplied and the unpremultiplied variant of the same
/// alpha-carrying format.
pub open spec fn alpha_variants(premultiplied: PixelFormat, unpremultiplied: PixelFormat) -> bool {
    ||| premultiplied == PixelFormat::MonoAlpha8(Alpha::Premultiplied) && unpremultiplied
        == PixelFormat::MonoAlpha8(Alpha::Unpremultiplied)
    ||| premultiplied == PixelFormat::Bgra8(Alpha::Premultiplied) && unpremultiplied
        == PixelFormat::Bgra8(Alpha::Unpremultiplied)
    ||| premultiplied == PixelFormat::Rgba8(Alpha::Premultiplied) && unpremultiplied
        == PixelFormat::Rgba8(Alpha::Unpremultiplied)
}

/// Every pixel of the image is fully opaque: its last byte, the alpha, is 255.
pub open spec fn all_opaque(info: ImageInfo, data: Seq<u8>) -> bool {
    forall|x: int, y: int|
        0 <= x < info.size.x && 0 <= y < info.size.y ==> data[#[trigger] pixel_offset(info, x, y)
            + bytes_per_pixel(info.pixel_format) - 1] == 255
}

/// Undoing premultiplication by a full alpha changes nothing.
pub proof fn lemma_unpremultiply_opaque(c: u8)
    ensures
        unpremultiply(c, 255) == c,
{
}

/// A fully opaque image converts to the same bytes whether its colours are
/// said to be premultiplied or not.
pub proof fn lemma_opaque_premultiplied_same(
    out_premultiplied: Seq<u8>,
    out_unpremultiplied: Seq<u8>,
    info: ImageInfo,
    unpremultiplied: PixelFormat,
    data: Seq<u8>,
)
    requires
        alpha_variants(info.pixel_format, unpremultiplied),
        all_opaque(info, data),
        is_rgba8_of(out_premultiplied, info, data),
        is_rgba8_of(out_unpremultiplied, ImageInfo { pixel_format: unpremultiplied, ..info }, data),
    ensures
        out_premultiplied == out_unpremultiplied,
{
    let w = info.size.x as int;
    let h = info.size.y as int;
    let info_u = ImageInfo { pixel_format: unpremultiplied, ..info };
    assert forall|k: int| 0 <= k < out_premultiplied.len() implies out_premultiplied[k]
        == out_unpremultiplied[k] by {
        let (x, y, c) = lemma_rgba_index_decompose(w, h, k);
        assert(pixel_offset(info, x, y) == pixel_offset(info_u, x, y));
        let s = pixel_offset(info, x, y);
        assert(data[s + bytes_per_pixel(info.pixel_format) - 1] == 255);
        assert(out_premultiplied[rgba_index(w, x, y, c)] == rgba8_channel(info.pixel_format, data, s, c));
        assert(out_unpremultiplied[rgba_index(w, x, y, c)] == rgba8_channel(unpremultiplied, data, s, c));
    }
    assert(out_premultiplied =~= out_unpremultiplied);
}

/// Undoing premultiplication finds the largest value that, multiplied by
/// the alpha, stays within the colour scaled to 255 (for colours not above
/// their alpha, where nothing is cut off), and gives zero for a fully
/// transparent pixel.
pub proof fn lemma_unpremultiply_is_quotient(c: u8, a: u8)
    ensures
        a == 0 ==> unpremultiply(c, a) == 0,
        a > 0 && c <= a ==> unpremultiply(c, a) * a <= c * 255 < (unpremultiply(c, a) + 1) * a,
{
    if a > 0 && c <= a {
        let q = (c * 255int) / (a as int);
        assert(0 <= q <= 255) by (nonlinear_arith)
            requires
                q == (c * 255int) / (a as int),
                0 < a,
                c <= a,
        ;
        assert(q * a <= c * 255 < (q + 1) * a) by (nonlinear_arith)
            requires
                q == (c * 255int) / (a as int),
                0 < a,
        ;
    }
}

/// What the RGBA8 form of one pixel is made of, format by format: formats
/// without alpha are opaque and the others keep their alpha byte; grey
/// formats give equal red, green and blue; RGB formats keep the byte order
/// and BGR formats reverse it; and a premultiplied format gives the
/// unpremultiplied colours of the same bytes read without premultiplication.
pub proof fn lemma_rgba8_channel_laws(format: PixelFormat, d: Seq<u8>, s: int)
    ensures
        format is Mono8 || format is Bgr8 || format is Rgb8 ==> rgba8_channel(format, d, s, 3) == 255,
        format is MonoAlpha8 ==> rgba8_channel(format, d, s, 3) == d[s + 1],
        format is Bgra8 || format is Rgba8 ==> rgba8_channel(format, d, s, 3) == d[s + 3],
        format is Mono8 || format is MonoAlpha8 ==> rgba8_channel(format, d, s, 0) == rgba8_channel(format, d, s, 1)
            && rgba8_channel(format, d, s, 1) == rgba8_channel(format, d, s, 2),
        format == PixelFormat::Mono8 || format == PixelFormat::MonoAlpha8(Alpha::Unpremultiplied)
            ==> rgba8_channel(format, d, s, 0) == d[s],
        forall|c: int|
            0 <= c < 3 ==> {
                &&& (format == PixelFormat::Rgb8 || format == PixelFormat::Rgba8(Alpha::Unpremultiplied)
                    ==> #[trigger] rgba8_channel(format, d, s, c) == d[s + c])
                &&& (format == PixelFormat::Bgr8 || format == PixelFormat::Bgra8(Alpha::Unpremultiplied)
                    ==> rgba8_channel(format, d, s, c) == d[s + 2 - c])
            },
        forall|c: int, premultiplied: PixelFormat|
            0 <= c < 4 && alpha_variants(premultiplied, format) ==> #[trigger] rgba8_channel(premultiplied, d, s, c)
                == if c < 3 {
                unpremultiply(rgba8_channel(format, d, s, c), rgba8_channel(format, d, s, 3))
            } else {
                rgba8_channel(format, d, s, 3)
            },
{
}

} // verus!
