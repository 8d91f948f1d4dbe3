//! The pixel work on RGBA images: masks made from a folder image's alpha channel,
//! masks applied to the top image, the monochrome form of the top image, and the
//! composition of the top image onto the folder image.
use vstd::prelude::*;
use crate::color::Rgb8;
use crate::properties::MaskType;

verus! {

/// An image as rows of RGBA pixels, four bytes per pixel, row after row.
pub struct RgbaImage {
    pub width: u32,
    pub height: u32,
    pub pixels: Vec<u8>,
}

/// An image as plain values.
pub struct ImageView {
    pub width: nat,
    pub height: nat,
    pub pixels: Seq<u8>,
}

impl View for RgbaImage {
    type V = ImageView;

    open spec fn view(&self) -> ImageView {
        ImageView { width: self.width as nat, height: self.height as nat, pixels: self.pixels@ }
    }
}

impl ImageView {
    /// The pixel buffer holds four bytes for every pixel.
    pub open spec fn wf(self) -> bool {
        self.pixels.len() == 4 * self.width * self.height
    }
}

impl RgbaImage {
    pub open spec fn wf(&self) -> bool {
        self@.wf()
    }
}

/// The resampling filter used when an image is resized.
#[derive(Debug, Clone, Copy, PartialEq, Eq, Structural)]
pub enum Filter {
    Nearest,
    Triangle,
    CatmullRom,
    Gaussian,
    Lanczos3,
}

/// What `image::DynamicImage::resize` makes of an RGBA image: the image scaled,
/// aspect ratio kept, to the largest size that fits the given bounds.
pub uninterp spec fn resized(image: ImageView, nwidth: nat, nheight: nat, filter: Filter) -> ImageView;

/// The pixels of `bottom` after `image::imageops::overlay` has blended `top` onto it
/// with its corner at (`x`, `y`).
pub uninterp spec fn overlaid(bottom: ImageView, top: ImageView, x: int, y: int) -> Seq<u8>;

/// The larger of two sizes, counting a size of zero as one.
pub open spec fn span(a: nat, b: nat) -> nat {
    let b1: nat = if b == 0 { 1 } else { b };
    if a >= b1 { a } else { b1 }
}

/// Whether resizing a `width` by `height` image to fit `nwidth` by `nheight` keeps
/// every buffer it allocates within the address space: the resampling passes hold
/// at most four values for each pixel of a `span` by `span` image.
pub open spec fn resize_fits(width: nat, height: nat, nwidth: nat, nheight: nat) -> bool {
    4 * span(width, nwidth) * span(height, nheight) <= usize::MAX
}

/// Resizes an RGBA image with `image::DynamicImage::resize`, keeping its aspect
/// ratio: the result is the whole RGBA image `resized` gives, and an image already of
/// the requested size comes back unchanged. Sizes whose buffers would overflow
/// `usize`, on which `image` panics, are ruled out by `resize_fits`.
#[verifier::external_body]
fn resize_rgba(image: &RgbaImage, nwidth: u32, nheight: u32, filter: Filter) -> (r: RgbaImage)
    requires
        image.wf(),
        resize_fits(image.width as nat, image.height as nat, nwidth as nat, nheight as nat),
    ensures
        r@ == resized(image@, nwidth as nat, nheight as nat, filter),
        r.wf(),
        (nwidth == image.width && nheight == image.height) ==> r@ == image@,
{
    let buffer = image::RgbaImage::from_raw(image.width, image.height, image.pixels.clone()).unwrap();
    let filter = match filter {
        Filter::Nearest => image::imageops::FilterType::Nearest,
        Filter::Triangle => image::imageops::FilterType::Triangle,
        Filter::CatmullRom => image::imageops::FilterType::CatmullRom,
        Filter::Gaussian => image::imageops::FilterType::Gaussian,
        Filter::Lanczos3 => image::imageops::FilterType::Lanczos3,
    };
    let out = image::DynamicImage::ImageRgba8(buffer).resize(nwidth, nheight, filter).into_rgba8();
    RgbaImage { width: out.width(), height: out.height(), pixels: out.into_raw() }
}

/// Blends `top` onto `bottom` with its corner at (`x`, `y`) using
/// `image::imageops::overlay`: the bottom image keeps its size and its pixels become
/// those `overlaid` gives.
#[verifier::external_body]
fn overlay_rgba(bottom: RgbaImage, top: &RgbaImage, x: i64, y: i64) -> (r: RgbaImage)
    requires
        bottom.wf(),
        top.wf(),
    ensures
        r.width == bottom.width,
        r.height == bottom.height,
        r.pixels@ == overlaid(bottom@, top@, x as int, y as int),
        r.wf(),
{
    let mut base = image::RgbaImage::from_raw(bottom.width, bottom.height, bottom.pixels).unwrap();
    let layer = image::RgbaImage::from_raw(top.width, top.height, top.pixels.clone()).unwrap();
    image::imageops::overlay(&mut base, &layer, x, y);
    RgbaImage { width: base.width(), height: base.height(), pixels: base.into_raw() }
}

/// The encodings in which pasted and dropped images arrive.
#[derive(Debug, Clone, Copy, PartialEq, Eq, Structural)]
pub enum EncodedFormat {
    Tiff,
    Png,
}

/// What `image::load_from_memory_with_format` decodes from the bytes in the given
/// format, as an RGBA image; `None` when the bytes do not decode.
pub uninterp spec fn decoded(bytes: Seq<u8>, format: EncodedFormat) -> Option<ImageView>;

/// Decodes image bytes in the given format with `image::load_from_memory_with_format`
/// and converts the image to RGBA: the whole RGBA image `decoded` gives, or `None`
/// when the bytes do not decode.
#[verifier::external_body]
fn decode_rgba(bytes: &[u8], format: EncodedFormat) -> (r: Option<RgbaImage>)
    ensures
        match decoded(bytes@, format) {
            Some(v) => r matches Some(i) && i@ == v && i.wf(),
            None => r is None,
        },
{
    let format = match format {
        EncodedFormat::Tiff => image::ImageFormat::Tiff,
        EncodedFormat::Png => image::ImageFormat::Png,
    };
    match image::load_from_memory_with_format(bytes, format) {
        Ok(image) => {
            let buffer = image.into_rgba8();
            Some(RgbaImage { width: buffer.width(), height: buffer.height(), pixels: buffer.into_raw() })
        },
        Err(_) => None,
    }
}

/// The image held by the bytes of a pasted or dropped image in the given format, or
/// `None` when they do not decode.
pub fn decode_image(bytes: &[u8], format: EncodedFormat) -> (r: Option<RgbaImage>)
    ensures
        match decoded(bytes@, format) {
            Some(v) => r matches Some(i) && i@ == v && i.wf(),
            None => r is None,
        },
{
    decode_rgba(bytes, format)
}

/// An image resized, aspect ratio kept, to fit a square of the given size with the
/// nearest-pixel filter, as thumbnails are made.
pub fn thumbnail(image: &RgbaImage, size: u32) -> (r: RgbaImage)
    requires
        image.wf(),
        resize_fits(image.width as nat, image.height as nat, size as nat, size as nat),
    ensures
        r@ == resized(image@, size as nat, size as nat, Filter::Nearest),
        r.wf(),
{
    resize_rgba(image, size, size, Filter::Nearest)
}

/// Byte `k` of the mask made from an image: every colour channel takes the pixel's
/// alpha, and the mask is opaque.
pub open spec fn mask_byte(src: Seq<u8>, k: int) -> u8 {
    if k % 4 == 3 {
        255
    } else {
        src[k - k % 4 + 3]
    }
}

/// Every byte of the mask made from an image: the red, green and blue bytes of each
/// pixel are that pixel's alpha, and its alpha byte is 255.
pub proof fn law_mask_is_alpha_as_grey(src: Seq<u8>, k: int)
    requires
        0 <= k,
    ensures
        k % 4 != 3 ==> mask_byte(src, k) == src[4 * (k / 4) + 3],
        k % 4 == 3 ==> mask_byte(src, k) == 255,
{
}

/// A mask made from the alpha channel of an image: grey as bright as the alpha,
/// fully opaque.
pub fn auto_generate_mask(image: &RgbaImage) -> (r: RgbaImage)
    requires
        image.wf(),
    ensures
        r.width == image.width,
        r.height == image.height,
        r.pixels.len() == image.pixels.len(),
        forall|k: int| 0 <= k < r.pixels.len() ==> #[trigger] r.pixels@[k] == mask_byte(image.pixels@, k),
        forall|k: int|
            0 <= k < r.pixels.len() && k % 4 != 3 ==> #[trigger] r.pixels@[k] == image.pixels@[4 * (k / 4) + 3],
        forall|k: int| 0 <= k < r.pixels.len() && k % 4 == 3 ==> #[trigger] r.pixels@[k] == 255,
        r.wf(),
{
    let n = image.pixels.len();
    let ghost wh = image.width * image.height;
    assert(n == 4 * wh) by (nonlinear_arith)
        requires
            n == 4 * image.width * image.height,
            wh == image.width * image.height,
    ;
    assert(n % 4 == 0);
    let mut out: Vec<u8> = Vec::new();
    let mut k: usize = 0;
    while k < n
        invariant
            n == image.pixels.len(),
            n % 4 == 0,
            k <= n,
            out.len() == k,
            forall|j: int| 0 <= j < k ==> #[trigger] out@[j] == mask_byte(image.pixels@, j),
        decreases n - k,
    {
        let v = if k % 4 == 3 {
            255
        } else {
            image.pixels[k - k % 4 + 3]
        };
        out.push(v);
        k = k + 1;
    }
    assert forall|k: int| 0 <= k < out.len() && k % 4 != 3 implies #[trigger] out@[k] == image.pixels@[4
        * (k / 4) + 3] by {
        law_mask_is_alpha_as_grey(image.pixels@, k);
    }
    assert forall|k: int| 0 <= k < out.len() && k % 4 == 3 implies #[trigger] out@[k] == 255 by {
        law_mask_is_alpha_as_grey(image.pixels@, k);
    }
    RgbaImage { width: image.width, height: image.height, pixels: out }
}

/// Byte `k` of the monochrome form of an image. A pixel is lit when its luminance
/// reaches the threshold and it is not fully transparent; with `invert` the unlit
/// pixels are coloured instead. Coloured pixels take `color` and keep their alpha;
/// the others become fully transparent black.
pub open spec fn mono_byte(src: Seq<u8>, luminance: Seq<u8>, threshold: u8, color: Rgb8, invert: bool, k: int) -> u8 {
    let alpha = src[k - k % 4 + 3];
    let lit = luminance[k / 4] >= threshold && alpha > 0;
    if lit != invert {
        if k % 4 == 0 {
            color.r
        } else if k % 4 == 1 {
            color.g
        } else if k % 4 == 2 {
            color.b
        } else {
            alpha
        }
    } else {
        0
    }
}

/// The position of channel `c` of pixel `p` in a buffer of four bytes per pixel.
pub open spec fn channel_at(p: int, c: int) -> int {
    4 * p + c
}

/// Each pixel of the monochrome form: it is lit when its luminance reaches the
/// threshold and it is not fully transparent; a lit pixel (an unlit one with
/// `invert`) takes the colour's red, green and blue and keeps its own alpha, and
/// every other pixel is transparent black.
pub proof fn law_monochrome_pixel(
    src: Seq<u8>,
    luminance: Seq<u8>,
    threshold: u8,
    color: Rgb8,
    invert: bool,
    p: int,
    c: int,
)
    requires
        0 <= p,
        0 <= c < 4,
    ensures
        mono_byte(src, luminance, threshold, color, invert, channel_at(p, c)) == if ((luminance[p]
            >= threshold && src[channel_at(p, 3)] > 0) != invert) {
            if c == 0 {
                color.r
            } else if c == 1 {
                color.g
            } else if c == 2 {
                color.b
            } else {
                src[channel_at(p, 3)]
            }
        } else {
            0
        },
{
    vstd::arithmetic::div_mod::lemma_fundamental_div_mod_converse(channel_at(p, c), 4, p, c);
}

/// The monochrome form of an image. `luminance` holds, for each pixel, its
/// luminance `0.299 r + 0.587 g + 0.114 b` truncated to a byte.
pub fn to_monochrome(image: &RgbaImage, luminance: &Vec<u8>, threshold: u8, color: Rgb8, invert: bool) -> (r: RgbaImage)
    requires
        image.wf(),
        4 * luminance.len() == image.pixels.len(),
    ensures
        r.width == image.width,
        r.height == image.height,
        r.pixels.len() == image.pixels.len(),
        forall|k: int| 0 <= k < r.pixels.len() ==> #[trigger] r.pixels@[k] == mono_byte(image.pixels@, luminance@, threshold, color, invert, k),
        forall|p: int, c: int|
            0 <= p < luminance.len() && 0 <= c < 4 ==> #[trigger] r.pixels@[channel_at(p, c)] == if ((
            luminance@[p] >= threshold && image.pixels@[channel_at(p, 3)] > 0) != invert) {
                if c == 0 {
                    color.r
                } else if c == 1 {
                    color.g
                } else if c == 2 {
                    color.b
                } else {
                    image.pixels@[channel_at(p, 3)]
                }
            } else {
                0
            },
        r.wf(),
{
    let n = image.pixels.len();
    let mut out: Vec<u8> = Vec::new();
    let mut k: usize = 0;
    while k < n
        invariant
            n == image.pixels.len(),
            4 * luminance.len() == n,
            k <= n,
            out.len() == k,
            forall|j: int| 0 <= j < k ==> #[trigger] out@[j] == mono_byte(image.pixels@, luminance@, threshold, color, invert, j),
        decreases n - k,
    {
        let alpha = image.pixels[k - k % 4 + 3];
        let lit = luminance[k / 4] >= threshold && alpha > 0;
        let v = if lit != invert {
            if k % 4 == 0 {
                color.r
            } else if k % 4 == 1 {
                color.g
            } else if k % 4 == 2 {
                color.b
            } else {
                alpha
            }
        } else {
            0
        };
        out.push(v);
        k = k + 1;
    }
    assert forall|p: int, c: int| 0 <= p < luminance.len() && 0 <= c < 4 implies #[trigger] out@[channel_at(
        p,
        c,
    )] == if ((luminance@[p] >= threshold && image.pixels@[channel_at(p, 3)] > 0) != invert) {
        if c == 0 {
            color.r
        } else if c == 1 {
            color.g
        } else if c == 2 {
            color.b
        } else {
            image.pixels@[channel_at(p, 3)]
        }
    } else {
        0
    } by {
        law_monochrome_pixel(image.pixels@, luminance@, threshold, color, invert, p, c);
    }
    RgbaImage { width: image.width, height: image.height, pixels: out }
}

/// Byte `k` of the top image after its mask is applied: the alpha of each pixel is
/// lowered to the luminance of the mask pixel at the same position; colours stay.
pub open spec fn masked_byte(src: Seq<u8>, width: nat, mask_width: nat, mask_luminance: Seq<u8>, k: int) -> u8 {
    if k % 4 != 3 {
        src[k]
    } else {
        let p = k / 4;
        let m = mask_luminance[(p / width as int) * mask_width + p % width as int];
        if src[k] > m {
            m
        } else {
            src[k]
        }
    }
}

proof fn lemma_mask_index(p: int, w: int, h: int, mw: int, mh: int)
    requires
        0 <= p < w * h,
        0 < w <= mw,
        h <= mh,
    ensures
        0 <= (p / w) * mw + p % w < mw * mh,
{
    let y = p / w;
    let x = p % w;
    vstd::arithmetic::div_mod::lemma_fundamental_div_mod(p, w);
    assert(0 <= x < w);
    assert(y >= 0) by {
        vstd::arithmetic::div_mod::lemma_div_pos_is_pos(p, w);
    }
    assert(y < h) by (nonlinear_arith)
        requires
            p == w * y + x,
            0 <= x,
            p < w * h,
            0 < w,
    ;
    assert(y * mw + x < mw * mh) by (nonlinear_arith)
        requires
            0 <= y < h,
            h <= mh,
            0 <= x < w,
            w <= mw,
    {
        assert(y * mw <= (h - 1) * mw);
        assert((h - 1) * mw + mw == h * mw);
        assert(h * mw <= mh * mw);
    }
    assert(0 <= y * mw) by (nonlinear_arith)
        requires
            0 <= y,
            0 < mw,
    ;
}

/// The position of byte `c` of the pixel at column `x`, row `y` of an image `width`
/// pixels wide.
pub open spec fn byte_at(width: int, x: int, y: int, c: int) -> int {
    4 * (y * width + x) + c
}

/// Masking works pixel by pixel at the same position: byte `c` of the top pixel at
/// column `x`, row `y` keeps its colour, and its alpha becomes the smaller of its own
/// alpha and the luminance of the mask pixel at the same column and row.
pub proof fn law_mask_at_same_position(
    src: Seq<u8>,
    width: nat,
    mask_width: nat,
    mask_luminance: Seq<u8>,
    x: int,
    y: int,
    c: int,
)
    requires
        0 <= x < width,
        0 <= y,
        0 <= c < 4,
    ensures
        ({
            let k = byte_at(width as int, x, y, c);
            let m = mask_luminance[y * mask_width + x];
            masked_byte(src, width, mask_width, mask_luminance, k) == if c != 3 {
                src[k]
            } else if src[k] <= m {
                src[k]
            } else {
                m
            }
        }),
{
    let p = y * width + x;
    let k = byte_at(width as int, x, y, c);
    assert(p >= 0) by (nonlinear_arith)
        requires
            0 <= y,
            0 <= x,
            p == y * width + x,
    ;
    vstd::arithmetic::div_mod::lemma_fundamental_div_mod_converse(k, 4, p, c);
    vstd::arithmetic::div_mod::lemma_fundamental_div_mod_converse(p, width as int, y, x);
}

/// Applies a mask to the top image: a pixel is never more opaque than the mask is
/// bright at the same position. `mask_luminance` holds, for each mask pixel, its
/// luminance `0.299 r + 0.587 g + 0.114 b` truncated to a byte.
pub fn apply_mask_to_top_image(top_image: &RgbaImage, mask: &RgbaImage, mask_luminance: &Vec<u8>) -> (r: RgbaImage)
    requires
        top_image.wf(),
        mask.wf(),
        mask_luminance.len() == mask.width * mask.height,
        top_image.width == 0 || top_image.height == 0 || (top_image.width <= mask.width
            && top_image.height <= mask.height),
    ensures
        r.width == top_image.width,
        r.height == top_image.height,
        r.pixels.len() == top_image.pixels.len(),
        forall|k: int| 0 <= k < r.pixels.len() ==> #[trigger] r.pixels@[k] == masked_byte(top_image.pixels@, top_image.width as nat, mask.width as nat, mask_luminance@, k),
        forall|x: int, y: int, c: int|
            0 <= x < top_image.width && 0 <= y < top_image.height && 0 <= c < 4 ==> {
                let k = byte_at(top_image.width as int, x, y, c);
                let m = mask_luminance@[y * mask.width + x];
                #[trigger] r.pixels@[byte_at(top_image.width as int, x, y, c)] == if c != 3 {
                    top_image.pixels@[k]
                } else if top_image.pixels@[k] <= m {
                    top_image.pixels@[k]
                } else {
                    m
                }
            },
        r.wf(),
{
    let n = top_image.pixels.len();
    let w = top_image.width as usize;
    let mw = mask.width as usize;
    let mut out: Vec<u8> = Vec::new();
    let mut k: usize = 0;
    while k < n
        invariant
            n == top_image.pixels.len(),
            top_image.wf(),
            w == top_image.width,
            mw == mask.width,
            mask_luminance.len() == mask.width * mask.height,
            top_image.width == 0 || top_image.height == 0 || (top_image.width <= mask.width
                && top_image.height <= mask.height),
            k <= n,
            out.len() == k,
            forall|j: int| 0 <= j < k ==> #[trigger] out@[j] == masked_byte(top_image.pixels@, top_image.width as nat, mask.width as nat, mask_luminance@, j),
        decreases n - k,
    {
        let v = if k % 4 != 3 {
            top_image.pixels[k]
        } else {
            let p = k / 4;
            proof {
                assert(w > 0 && top_image.height > 0) by (nonlinear_arith)
                    requires
                        n == 4 * top_image.width * top_image.height,
                        k < n,
                        w == top_image.width,
                ;
                let wh = top_image.width * top_image.height;
                assert(n == 4 * wh) by (nonlinear_arith)
                    requires
                        n == 4 * top_image.width * top_image.height,
                        wh == top_image.width * top_image.height,
                ;
                assert(p < wh);
                lemma_mask_index(p as int, w as int, top_image.height as int, mw as int, mask.height as int);
            }
            let q = (p / w) * mw + p % w;
            let m = mask_luminance[q];
            if top_image.pixels[k] > m {
                m
            } else {
                top_image.pixels[k]
            }
        };
        out.push(v);
        k = k + 1;
    }
    assert forall|x: int, y: int, c: int|
        0 <= x < top_image.width && 0 <= y < top_image.height && 0 <= c < 4 implies {
            let k = byte_at(top_image.width as int, x, y, c);
            let m = mask_luminance@[y * mask.width + x];
            #[trigger] out@[byte_at(top_image.width as int, x, y, c)] == if c != 3 {
                top_image.pixels@[k]
            } else if top_image.pixels@[k] <= m {
                top_image.pixels@[k]
            } else {
                m
            }
        } by {
        law_mask_at_same_position(
            top_image.pixels@,
            top_image.width as nat,
            mask.width as nat,
            mask_luminance@,
            x,
            y,
            c,
        );
        let k = byte_at(top_image.width as int, x, y, c);
        assert(0 <= k < n) by (nonlinear_arith)
            requires
                k == 4 * (y * top_image.width + x) + c,
                0 <= x < top_image.width,
                0 <= y < top_image.height,
                0 <= c < 4,
                n == 4 * top_image.width * top_image.height,
        ;
    }
    RgbaImage { width: top_image.width, height: top_image.height, pixels: out }
}

/// A monochrome image and its inverted form split each pixel's opacity between them:
/// at every pixel exactly one of the two keeps the alpha of the source, and the
/// other is fully transparent.
pub proof fn law_monochrome_inversion_splits_alpha(
    src: Seq<u8>,
    luminance: Seq<u8>,
    threshold: u8,
    color: Rgb8,
    k: int,
)
    requires
        0 <= k,
        k % 4 == 3,
    ensures
        mono_byte(src, luminance, threshold, color, false, k) + mono_byte(
            src,
            luminance,
            threshold,
            color,
            true,
            k,
        ) == src[k],
        mono_byte(src, luminance, threshold, color, false, k) == 0 || mono_byte(
            src,
            luminance,
            threshold,
            color,
            true,
            k,
        ) == 0,
{
    assert(k - k % 4 + 3 == k);
}

/// Raising the threshold only clears pixels: without inversion, every byte of the
/// monochrome image at a higher threshold is either the byte at the lower threshold
/// or zero, and a pixel that is transparent at the lower threshold stays so. At
/// threshold zero every pixel that is not fully transparent takes the colour and
/// keeps its alpha.
pub proof fn law_monochrome_threshold_monotone(
    src: Seq<u8>,
    luminance: Seq<u8>,
    low: u8,
    high: u8,
    color: Rgb8,
    k: int,
)
    requires
        0 <= k,
        low <= high,
    ensures
        mono_byte(src, luminance, high, color, false, k) == mono_byte(src, luminance, low, color, false, k)
            || mono_byte(src, luminance, high, color, false, k) == 0,
        k % 4 == 3 && mono_byte(src, luminance, low, color, false, k) == 0 ==> mono_byte(
            src,
            luminance,
            high,
            color,
            false,
            k,
        ) == 0,
        src[k - k % 4 + 3] > 0 ==> mono_byte(src, luminance, 0, color, false, k) == (if k % 4 == 0 {
            color.r
        } else if k % 4 == 1 {
            color.g
        } else if k % 4 == 2 {
            color.b
        } else {
            src[k]
        }),
{
    assert(k % 4 == 3 ==> k - k % 4 + 3 == k);
}

/// Applying a mask keeps every colour, never raises an alpha, and a second
/// application with the same mask changes nothing: every byte of the masked image is
/// what masking it again gives.
pub proof fn law_mask_idempotent(src: Seq<u8>, width: nat, mask_width: nat, mask_luminance: Seq<u8>)
    ensures
        ({
            let once = Seq::new(src.len(), |j: int| masked_byte(src, width, mask_width, mask_luminance, j));
            &&& forall|k: int| 0 <= k < once.len() ==> #[trigger] masked_byte(once, width, mask_width, mask_luminance, k) == once[k]
            &&& forall|k: int| 0 <= k < once.len() && k % 4 != 3 ==> #[trigger] once[k] == src[k]
            &&& forall|k: int| 0 <= k < once.len() && k % 4 == 3 ==> #[trigger] once[k] <= src[k]
        }),
{
}

/// Division of integers rounded towards zero, as Rust divides `i64` values.
pub open spec fn trunc_div(a: int, d: int) -> int {
    if a >= 0 {
        a / d
    } else {
        -((-a) / d)
    }
}

/// Where the top image's corner goes along one axis: the given percentage of the
/// base image's size, less half the top image's size.
pub open spec fn placement(base_size: nat, top_size: nat, percent: int) -> int {
    trunc_div(base_size * percent, 100) - (top_size / 2) as int
}

fn place(base_size: u32, top_size: u32, percent: i64) -> (r: i64)
    requires
        -(i64::MAX as int) <= base_size * percent <= i64::MAX,
    ensures
        r == placement(base_size as nat, top_size as nat, percent as int),
{
    let product = base_size as i64 * percent;
    let scaled = if product >= 0 {
        product / 100
    } else {
        -((-product) / 100)
    };
    scaled - (top_size / 2) as i64
}

/// The icon: the top image resized to fit `top_bounds` and laid over the base image
/// so that its centre sits at `percent` of the base image's width and height.
pub fn generate_image(
    base_image: RgbaImage,
    top_image: &RgbaImage,
    top_bounds: (u32, u32),
    percent: (i64, i64),
    filter: Filter,
) -> (r: RgbaImage)
    requires
        base_image.wf(),
        top_image.wf(),
        -(i64::MAX as int) <= base_image.width * percent.0 <= i64::MAX,
        -(i64::MAX as int) <= base_image.height * percent.1 <= i64::MAX,
        resize_fits(top_image.width as nat, top_image.height as nat, top_bounds.0 as nat, top_bounds.1 as nat),
    ensures
        ({
            let top = resized(top_image@, top_bounds.0 as nat, top_bounds.1 as nat, filter);
            &&& r.width == base_image.width
            &&& r.height == base_image.height
            &&& r.pixels@ == overlaid(
                base_image@,
                top,
                placement(base_image.width as nat, top.width, percent.0 as int),
                placement(base_image.height as nat, top.height, percent.1 as int),
            )
        }),
        r.wf(),
{
    let top = resize_rgba(top_image, top_bounds.0, top_bounds.1, filter);
    let x = place(base_image.width, top.width, percent.0);
    let y = place(base_image.height, top.height, percent.1);
    overlay_rgba(base_image, &top, x, y)
}

/// The mask served for the current icon, from the mask that came with the folder
/// image: that mask when automatic, none when disabled, and for a custom mask the
/// custom image, resized to the size of that mask when the sizes differ. Without a
/// folder mask, or a custom setting without a custom image, no mask is served.
pub fn serve_mask(mask: Option<RgbaImage>, setting: &MaskType, custom_mask: Option<RgbaImage>) -> (r: Option<RgbaImage>)
    requires
        mask matches Some(m) ==> m.wf(),
        custom_mask matches Some(c) ==> c.wf(),
        custom_mask matches Some(c) ==> (mask matches Some(m) ==> resize_fits(
            c.width as nat,
            c.height as nat,
            m.width as nat,
            m.height as nat,
        )),
    ensures
        match mask {
            None => r is None,
            Some(m) => match setting {
                MaskType::Automatic => r matches Some(x) && x@ == m@,
                MaskType::Disabled => r is None,
                MaskType::Custom(_) => match custom_mask {
                    Some(c) => if c.width != m.width || c.height != m.height {
                        r matches Some(x) && x@ == resized(c@, m.width as nat, m.height as nat, Filter::Nearest)
                    } else {
                        r matches Some(x) && x@ == c@
                    },
                    None => r is None,
                },
            },
        },
{
    match mask {
        None => None,
        Some(m) => match setting {
            MaskType::Automatic => Some(m),
            MaskType::Disabled => None,
            MaskType::Custom(_) => match custom_mask {
                Some(c) => {
                    if c.width != m.width || c.height != m.height {
                        Some(resize_rgba(&c, m.width, m.height, Filter::Nearest))
                    } else {
                        Some(c)
                    }
                },
                None => None,
            },
        },
    }
}

/// The masks made from a folder image when no mask file is given: the mask from its
/// alpha channel, and that mask as a thumbnail of the given size.
pub fn automatic_masks(image: &RgbaImage, thumbnail_size: u32) -> (r: (RgbaImage, RgbaImage))
    requires
        image.wf(),
        resize_fits(image.width as nat, image.height as nat, thumbnail_size as nat, thumbnail_size as nat),
    ensures
        r.0.width == image.width,
        r.0.height == image.height,
        r.0.pixels.len() == image.pixels.len(),
        forall|k: int| 0 <= k < r.0.pixels.len() ==> #[trigger] r.0.pixels@[k] == mask_byte(image.pixels@, k),
        forall|k: int|
            0 <= k < r.0.pixels.len() && k % 4 != 3 ==> #[trigger] r.0.pixels@[k] == image.pixels@[4 * (k / 4)
                + 3],
        forall|k: int| 0 <= k < r.0.pixels.len() && k % 4 == 3 ==> #[trigger] r.0.pixels@[k] == 255,
        r.1@ == resized(r.0@, thumbnail_size as nat, thumbnail_size as nat, Filter::Nearest),
        r.0.wf(),
        r.1.wf(),
{
    let mask = auto_generate_mask(image);
    let small = thumbnail(&mask, thumbnail_size);
    (mask, small)
}

} // verus!
