//! Decoding of encoded images into RGBA8 pixels: which decoder a request
//! goes to, the orientation and resize options, and the calls into the
//! `image` crate.

use vstd::prelude::*;
use crate::image_store::GfxDecodedImage;
use crate::text::{str_eq, opt_str, opt_string_view};
use crate::gfx_map::opt_view;

verus! {

broadcast use vstd::string::group_string_axioms;

/// Options of an image decode, as scripts give them.
#[derive(Clone, Debug)]
pub struct DecodeImageOptions {
    pub resize_width: Option<u32>,
    pub resize_height: Option<u32>,
    /// "low", "medium", "high" or "pixelated".
    pub resize_quality: Option<String>,
    /// "none" or "flipY".
    pub image_orientation: Option<String>,
}

/// A decode-and-store request.
#[derive(Clone, Debug)]
pub struct DecodeImageStoreArgs {
    pub format: String,
    pub resize_width: Option<u32>,
    pub resize_height: Option<u32>,
    pub resize_quality: Option<String>,
    pub image_orientation: Option<String>,
}

/// A request to resize a stored image into a new one.
#[derive(Clone, Debug)]
pub struct ResizeDecodedImageArgs {
    pub source_rid: u32,
    pub width: u32,
    pub height: u32,
    pub quality: Option<String>,
}

/// The outcome of a direct decode as scripts receive it.
#[derive(Clone, Debug)]
pub struct DecodeImageResult {
    pub width: u32,
    pub height: u32,
    pub data: Vec<u8>,
    pub error: Option<String>,
}

/// Which decoder handles an encoded image.
#[derive(Clone, Copy, Debug, PartialEq, Eq, Structural)]
pub enum DecodeRoute {
    /// The native WebP decoder, which scales while decoding.
    WebpNative,
    Png,
    Jpeg,
    /// The `image` crate guesses the format from the data.
    Guess,
}

/// Data that starts with a RIFF header naming WebP content.
pub open spec fn is_riff_webp(d: Seq<u8>) -> bool {
    d.len() >= 12
        && d[0] == 0x52u8 && d[1] == 0x49u8 && d[2] == 0x46u8 && d[3] == 0x46u8
        && d[8] == 0x57u8 && d[9] == 0x45u8 && d[10] == 0x42u8 && d[11] == 0x50u8
}

/// WebP (named, or detected when the format is "auto") goes to the native
/// decoder; "png" and "jpeg"/"jpg" to those decoders; anything else is guessed.
pub open spec fn decode_route_spec(d: Seq<u8>, format: Seq<char>) -> DecodeRoute {
    if format == "webp"@ {
        DecodeRoute::WebpNative
    } else if format == "auto"@ && is_riff_webp(d) {
        DecodeRoute::WebpNative
    } else if format == "png"@ {
        DecodeRoute::Png
    } else if format == "jpeg"@ || format == "jpg"@ {
        DecodeRoute::Jpeg
    } else {
        DecodeRoute::Guess
    }
}

/// Chooses the decoder for an encoded image.
pub fn decode_route(data: &[u8], format: &str) -> (r: DecodeRoute)
    ensures
        r == decode_route_spec(data@, format@),
{
    if str_eq(format, "webp") {
        DecodeRoute::WebpNative
    } else if str_eq(format, "auto") && data.len() >= 12
        && data[0] == 0x52 && data[1] == 0x49 && data[2] == 0x46 && data[3] == 0x46
        && data[8] == 0x57 && data[9] == 0x45 && data[10] == 0x42 && data[11] == 0x50 {
        DecodeRoute::WebpNative
    } else if str_eq(format, "png") {
        DecodeRoute::Png
    } else if str_eq(format, "jpeg") || str_eq(format, "jpg") {
        DecodeRoute::Jpeg
    } else {
        DecodeRoute::Guess
    }
}

/// Resampling filters.
#[derive(Clone, Copy, Debug, PartialEq, Eq, Structural)]
pub enum ResizeFilter {
    Nearest,
    Triangle,
    Lanczos3,
}

/// "pixelated" and "low" sample the nearest texel, "medium" filters
/// linearly, anything else (and nothing) uses Lanczos.
pub open spec fn resize_filter_spec(q: Option<Seq<char>>) -> ResizeFilter {
    if q == Some("pixelated"@) || q == Some("low"@) {
        ResizeFilter::Nearest
    } else if q == Some("medium"@) {
        ResizeFilter::Triangle
    } else {
        ResizeFilter::Lanczos3
    }
}

/// The resampling filter a resize quality asks for.
pub fn resize_filter_for(quality: Option<&str>) -> (r: ResizeFilter)
    ensures
        r == resize_filter_spec(opt_view(quality)),
{
    match quality {
        Some(q) => {
            if str_eq(q, "pixelated") || str_eq(q, "low") {
                ResizeFilter::Nearest
            } else if str_eq(q, "medium") {
                ResizeFilter::Triangle
            } else {
                ResizeFilter::Lanczos3
            }
        },
        None => ResizeFilter::Lanczos3,
    }
}

/// Whether an orientation option asks for a vertical flip.
pub fn wants_flip(orientation: Option<&str>) -> (r: bool)
    ensures
        r == (opt_view(orientation) == Some("flipY"@)),
{
    match orientation {
        Some(o) => str_eq(o, "flipY"),
        None => false,
    }
}

/// The size an image is resized to: both sides given and positive.
pub open spec fn resize_target_spec(w: Option<u32>, h: Option<u32>) -> Option<(u32, u32)> {
    match (w, h) {
        (Some(a), Some(b)) => if a > 0 && b > 0 { Some((a, b)) } else { None },
        _ => None,
    }
}

/// The size an image is resized to, if any.
pub fn resize_target(w: Option<u32>, h: Option<u32>) -> (r: Option<(u32, u32)>)
    ensures
        r == resize_target_spec(w, h),
{
    match (w, h) {
        (Some(a), Some(b)) => if a > 0 && b > 0 { Some((a, b)) } else { None },
        _ => None,
    }
}

/// The size the native WebP decoder scales to: a resize target that
/// differs from the image's own size.
pub fn webp_scaling(orig_w: u32, orig_h: u32, w: Option<u32>, h: Option<u32>) -> (r: Option<(u32, u32)>)
    ensures
        r == (match resize_target_spec(w, h) {
            Some(t) => if t.0 != orig_w || t.1 != orig_h { Some(t) } else { None },
            None => None,
        }),
{
    match resize_target(w, h) {
        Some((a, b)) => if a != orig_w || b != orig_h { Some((a, b)) } else { None },
        None => None,
    }
}

#[verifier::external_type_specification]
#[verifier::external_body]
pub struct ExDynamicImage(image::DynamicImage);

/// Formats decoded by an explicitly named decoder.
#[derive(Clone, Copy, Debug, PartialEq, Eq, Structural)]
pub enum NamedImageFormat {
    Png,
    Jpeg,
}

/// An image held by the `image` crate, with its size as the crate reports
/// it and (for proofs) the RGBA8 rows `DynamicImage::to_rgba8` gives for
/// it. The fields are private and only the wrappers below build one, each
/// from the image the crate handed back. The ghost field is erased when the
/// crate is compiled; the wrappers' contracts say what it stands for.
pub struct HeldImage {
    img: image::DynamicImage,
    width: u32,
    height: u32,
    rgba: Ghost<Seq<u8>>,
}

impl HeldImage {
    /// The image's width and height.
    pub closed spec fn size(&self) -> (u32, u32) {
        (self.width, self.height)
    }

    /// The image's pixels as RGBA8 rows, top row first.
    pub closed spec fn rgba(&self) -> Seq<u8> {
        self.rgba@
    }
}

/// The RGBA8 rows of a `w` x `h` image in reverse order: row `y` of the
/// result is row `h - 1 - y` of `p`.
pub open spec fn flip_rows(p: Seq<u8>, w: int, h: int) -> Seq<u8> {
    let row: int = 4 * w;
    Seq::new(p.len(), |i: int| p[(h - 1 - i / row) * row + i % row])
}

/// Flipping reverses the rows and keeps each row as it is: texel row `y`
/// of the flipped image is row `h - 1 - y` of the original, and flipping
/// twice gives the original image back.
pub proof fn lemma_flip_rows_twice(p: Seq<u8>, w: int, h: int)
    requires
        w > 0,
        h > 0,
        p.len() == 4 * w * h,
    ensures
        flip_rows(p, w, h).len() == p.len(),
        forall|y: int, x: int| 0 <= y < h && 0 <= x < 4 * w
            ==> #[trigger] flip_rows(p, w, h)[y * (4 * w) + x] == p[(h - 1 - y) * (4 * w) + x],
        flip_rows(flip_rows(p, w, h), w, h) == p,
{
    let row: int = 4 * w;
    let f = flip_rows(p, w, h);
    assert(p.len() == h * row) by (nonlinear_arith)
        requires p.len() == 4 * w * h, row == 4 * w;
    assert forall|y: int, x: int| 0 <= y < h && 0 <= x < row
        implies (#[trigger] (y * row + x)) / row == y && (y * row + x) % row == x
            && 0 <= y * row + x < p.len() by {
        vstd::arithmetic::div_mod::lemma_fundamental_div_mod_converse(y * row + x, row, y, x);
        assert(0 <= y * row + x < h * row) by (nonlinear_arith)
            requires 0 <= y < h, 0 <= x < row;
    }
    assert forall|y: int, x: int| 0 <= y < h && 0 <= x < row
        implies #[trigger] f[y * row + x] == p[(h - 1 - y) * row + x] by {
        assert((y * row + x) / row == y && (y * row + x) % row == x);
    }
    assert forall|i: int| 0 <= i < p.len() implies flip_rows(f, w, h)[i] == p[i] by {
        let y = i / row;
        let x = i % row;
        vstd::arithmetic::div_mod::lemma_fundamental_div_mod(i, row);
        assert(0 <= x < row);
        assert(0 <= y < h) by (nonlinear_arith)
            requires i == row * y + x, 0 <= x < row, 0 <= i < h * row, row > 0;
        assert(i == y * row + x) by (nonlinear_arith) requires i == row * y + x;
        let y2 = h - 1 - y;
        assert(f[y2 * row + x] == p[(h - 1 - y2) * row + x]);
        assert((y2 * row + x) / row == y2 && (y2 * row + x) % row == x);
        assert(flip_rows(f, w, h)[i] == f[(h - 1 - y) * row + x]);
    }
    assert(flip_rows(f, w, h) =~= p);
}

/// Whether `image::load_from_memory_with_format` decodes the data as the
/// named format, and the size of the image it gives: a function of the
/// bytes and the format alone (it is read from the headers).
pub uninterp spec fn decoded_size(data: Seq<u8>, format: NamedImageFormat) -> Option<(u32, u32)>;

/// `rgba` is the RGBA8 view of an image `image::load_from_memory_with_format`
/// gives for the data. A relation, not a function: the JPEG decoder picks
/// its code paths by the processor's features, so equal bytes are not
/// promised equal pixels on every machine.
pub uninterp spec fn decodes_to(data: Seq<u8>, format: NamedImageFormat, rgba: Seq<u8>) -> bool;

/// Whether `image::load_from_memory` decodes the data, its format guessed
/// from the content, and the size of the image it gives.
pub uninterp spec fn guessed_size(data: Seq<u8>) -> Option<(u32, u32)>;

/// `rgba` is the RGBA8 view of an image `image::load_from_memory` gives for
/// the data (a relation, for the reason given at `decodes_to`).
pub uninterp spec fn guesses_to(data: Seq<u8>, rgba: Seq<u8>) -> bool;

/// `out` is the RGBA8 view of an image `DynamicImage::resize_exact` gives,
/// with the filter, to `new_w` x `new_h` for a `w` x `h` image whose RGBA8
/// view is `rgba`. A relation: the Lanczos filter computes with a sine whose
/// precision std leaves to the platform.
pub uninterp spec fn resample_outcome(rgba: Seq<u8>, w: u32, h: u32, new_w: u32, new_h: u32,
    filter: ResizeFilter, out: Seq<u8>) -> bool;

/// `image::load_from_memory_with_format`: decodes data as the named
/// format; succeeds exactly when the crate decodes it, with the image's
/// size and RGBA8 pixels as the crate gives them. An error carries the
/// crate's message, which is not stated.
#[verifier::external_body]
fn load_with_format(data: &[u8], format: NamedImageFormat) -> (r: Result<HeldImage, String>)
    ensures
        r is Ok <==> decoded_size(data@, format) is Some,
        r matches Ok(i) ==> decoded_size(data@, format) == Some(i.size())
            && decodes_to(data@, format, i.rgba())
            && i.rgba().len() == 4 * i.size().0 * i.size().1,
{
    let f = match format {
        NamedImageFormat::Png => image::ImageFormat::Png,
        NamedImageFormat::Jpeg => image::ImageFormat::Jpeg,
    };
    match image::load_from_memory_with_format(data, f) {
        Ok(img) => Ok(HeldImage { width: img.width(), height: img.height(), img, rgba: Ghost(Seq::empty()) }),
        Err(e) => Err(e.to_string()),
    }
}

/// `image::load_from_memory`: decodes data whose format is guessed from
/// its content; succeeds exactly when the crate decodes it, with the
/// image's size and RGBA8 pixels. An error carries the crate's message.
#[verifier::external_body]
fn load_guessing(data: &[u8]) -> (r: Result<HeldImage, String>)
    ensures
        r is Ok <==> guessed_size(data@) is Some,
        r matches Ok(i) ==> guessed_size(data@) == Some(i.size())
            && guesses_to(data@, i.rgba())
            && i.rgba().len() == 4 * i.size().0 * i.size().1,
{
    match image::load_from_memory(data) {
        Ok(img) => Ok(HeldImage { width: img.width(), height: img.height(), img, rgba: Ghost(Seq::empty()) }),
        Err(e) => Err(e.to_string()),
    }
}

/// `DynamicImage::flipv`: the image flipped vertically, of the same size;
/// its RGBA8 rows are the image's in reverse order (`flipv` reverses the
/// rows and `to_rgba8` converts texel by texel).
#[verifier::external_body]
fn flip_vertical(img: &HeldImage) -> (r: HeldImage)
    ensures
        r.size() == img.size(),
        r.rgba() == flip_rows(img.rgba(), img.size().0 as int, img.size().1 as int),
{
    let out = img.img.flipv();
    HeldImage { width: out.width(), height: out.height(), img: out, rgba: Ghost(Seq::empty()) }
}

/// `DynamicImage::resize_exact`: the image resampled with the filter to
/// exactly `width` x `height`; its RGBA8 pixels are a resampling outcome.
#[verifier::external_body]
fn resize_exact(img: &HeldImage, width: u32, height: u32, filter: ResizeFilter) -> (r: HeldImage)
    ensures
        r.size() == (width, height),
        r.rgba().len() == 4 * width * height,
        resample_outcome(img.rgba(), img.size().0, img.size().1, width, height, filter, r.rgba()),
{
    let f = match filter {
        ResizeFilter::Nearest => image::imageops::FilterType::Nearest,
        ResizeFilter::Triangle => image::imageops::FilterType::Triangle,
        ResizeFilter::Lanczos3 => image::imageops::FilterType::Lanczos3,
    };
    let out = img.img.resize_exact(width, height, f);
    HeldImage { width: out.width(), height: out.height(), img: out, rgba: Ghost(Seq::empty()) }
}

/// `DynamicImage::to_rgba8`: the image's size and its RGBA8 rows.
#[verifier::external_body]
fn to_rgba(img: &HeldImage) -> (r: GfxDecodedImage)
    ensures
        r.width == img.size().0,
        r.height == img.size().1,
        r.pixels@ == img.rgba(),
{
    let rgba = img.img.to_rgba8();
    let (width, height) = rgba.dimensions();
    GfxDecodedImage { width, height, pixels: rgba.into_raw() }
}

/// What decoding gave: pixels, or a request for the native WebP decoder.
#[derive(Clone, Debug)]
pub enum DecodeOutcome {
    Decoded(GfxDecodedImage),
    NeedsNativeWebp,
}

/// Whether the decoder a route names decodes the data, and the size of
/// the image it gives.
pub open spec fn route_size(data: Seq<u8>, route: DecodeRoute) -> Option<(u32, u32)> {
    match route {
        DecodeRoute::Png => decoded_size(data, NamedImageFormat::Png),
        DecodeRoute::Jpeg => decoded_size(data, NamedImageFormat::Jpeg),
        _ => guessed_size(data),
    }
}

/// `rgba` is the RGBA8 view of an image the decoder a route names gives.
pub open spec fn route_decodes_to(data: Seq<u8>, route: DecodeRoute, rgba: Seq<u8>) -> bool {
    match route {
        DecodeRoute::Png => decodes_to(data, NamedImageFormat::Png, rgba),
        DecodeRoute::Jpeg => decodes_to(data, NamedImageFormat::Jpeg, rgba),
        _ => guesses_to(data, rgba),
    }
}

/// The size a decode ends with: the resize target when the options give
/// one, else the decoded size.
pub open spec fn final_size(options: Option<DecodeImageOptions>, decoded: (u32, u32)) -> (u32, u32) {
    match options {
        Some(o) => match resize_target_spec(o.resize_width, o.resize_height) {
            Some(t) => t,
            None => decoded,
        },
        None => decoded,
    }
}

/// The options ask for a vertical flip.
pub open spec fn flip_asked(options: Option<DecodeImageOptions>) -> bool {
    match options {
        Some(o) => opt_string_view(o.image_orientation) == Some("flipY"@),
        None => false,
    }
}

/// The resize the options ask for, with its filter.
pub open spec fn resize_asked(options: Option<DecodeImageOptions>) -> Option<(u32, u32, ResizeFilter)> {
    match options {
        Some(o) => match resize_target_spec(o.resize_width, o.resize_height) {
            Some(t) => Some((t.0, t.1, resize_filter_spec(opt_string_view(o.resize_quality)))),
            None => None,
        },
        None => None,
    }
}

/// `out` is what decoding gives from the RGBA8 rows `base` of a decoded
/// `w` x `h` image: the rows reversed when a flip is asked, then resampled
/// to the asked size with the asked filter when a resize is asked.
pub open spec fn decoded_from(base: Seq<u8>, w: u32, h: u32, options: Option<DecodeImageOptions>,
    out: GfxDecodedImage) -> bool {
    let flipped = if flip_asked(options) { flip_rows(base, w as int, h as int) } else { base };
    match resize_asked(options) {
        Some((nw, nh, f)) => out.width == nw && out.height == nh
            && resample_outcome(flipped, w, h, nw, nh, f, out.pixels@),
        None => out.width == w && out.height == h && out.pixels@ == flipped,
    }
}

/// Decodes an encoded image with the `image` crate, after routing WebP to
/// the native decoder; a vertical flip ("flipY") is applied before any
/// resize. Succeeds exactly when the routed decoder decodes the data;
/// decoded pixels are tightly packed RGBA8 of the resize target's size,
/// or of the decoded size when there is none: the decoder's pixels, rows
/// reversed when a flip is asked, then resampled with the asked filter.
pub fn decode_image_internal(data: &[u8], format: &str, options: &Option<DecodeImageOptions>)
    -> (r: Result<DecodeOutcome, String>)
    ensures
        (decode_route_spec(data@, format@) == DecodeRoute::WebpNative) <==> (r matches Ok(DecodeOutcome::NeedsNativeWebp)),
        decode_route_spec(data@, format@) != DecodeRoute::WebpNative ==>
            (r is Ok <==> route_size(data@, decode_route_spec(data@, format@)) is Some),
        r matches Ok(DecodeOutcome::Decoded(img)) ==>
            (img.width, img.height) == final_size(*options, route_size(data@, decode_route_spec(data@, format@))->0)
            && img.pixels@.len() == 4 * img.width * img.height
            && exists|base: Seq<u8>| #[trigger] route_decodes_to(data@, decode_route_spec(data@, format@), base)
                && decoded_from(base, (route_size(data@, decode_route_spec(data@, format@))->0).0,
                    (route_size(data@, decode_route_spec(data@, format@))->0).1, *options, img),
{
    let route = decode_route(data, format);
    let loaded = match route {
        DecodeRoute::WebpNative => return Ok(DecodeOutcome::NeedsNativeWebp),
        DecodeRoute::Png => load_with_format(data, NamedImageFormat::Png),
        DecodeRoute::Jpeg => load_with_format(data, NamedImageFormat::Jpeg),
        DecodeRoute::Guess => load_guessing(data),
    };
    let mut img = match loaded {
        Ok(i) => i,
        Err(e) => return Err(e),
    };
    let ghost base = img.rgba();
    let ghost w0 = img.size().0;
    let ghost h0 = img.size().1;
    assert(route_decodes_to(data@, route, base));
    match options {
        Some(opts) => {
            if wants_flip(opt_str(&opts.image_orientation)) {
                img = flip_vertical(&img);
            }
            let ghost flipped = img.rgba();
            assert(flipped == (if flip_asked(*options) { flip_rows(base, w0 as int, h0 as int) } else { base }));
            match resize_target(opts.resize_width, opts.resize_height) {
                Some((w, h)) => {
                    let filter = resize_filter_for(opt_str(&opts.resize_quality));
                    img = resize_exact(&img, w, h, filter);
                },
                None => {},
            }
        },
        None => {},
    }
    let out = to_rgba(&img);
    assert(decoded_from(base, w0, h0, *options, out));
    Ok(DecodeOutcome::Decoded(out))
}

/// The answer to a direct decode: the pixels, or an empty image with the error.
pub fn decode_image_result(r: Result<GfxDecodedImage, String>) -> (out: DecodeImageResult)
    ensures
        match r {
            Ok(img) => out.width == img.width && out.height == img.height
                && out.data@ == img.pixels@ && out.error is None,
            Err(e) => out.width == 0 && out.height == 0 && out.data@.len() == 0
                && out.error == Some(e),
        },
{
    match r {
        Ok(img) => DecodeImageResult { width: img.width, height: img.height, data: img.pixels, error: None },
        Err(e) => DecodeImageResult { width: 0, height: 0, data: Vec::new(), error: Some(e) },
    }
}

/// `out` is an image `image::imageops::resize` gives, with the filter, to
/// `new_w` x `new_h` for the `w` x `h` RGBA8 image held in `rgba`. A
/// relation: the Lanczos filter computes with a sine whose precision std
/// leaves to the platform.
pub uninterp spec fn rgba_resize_outcome(rgba: Seq<u8>, w: u32, h: u32, new_w: u32, new_h: u32,
    filter: ResizeFilter, out: Seq<u8>) -> bool;

/// `RgbaImage::from_raw` then `image::imageops::resize`: refused when the
/// pixels are fewer than the size needs; otherwise an image of exactly the
/// requested size whose pixels are a resize outcome for the filter.
#[verifier::external_body]
fn resize_rgba(img: &GfxDecodedImage, width: u32, height: u32, filter: ResizeFilter)
    -> (r: Option<GfxDecodedImage>)
    requires
        4 * width * height <= usize::MAX,
    ensures
        r is Some <==> 4 * img.width * img.height <= img.pixels@.len(),
        r matches Some(out) ==> out.width == width && out.height == height
            && out.pixels@.len() == 4 * width * height
            && rgba_resize_outcome(img.pixels@, img.width, img.height, width, height, filter, out.pixels@),
{
    let f = match filter {
        ResizeFilter::Nearest => image::imageops::FilterType::Nearest,
        ResizeFilter::Triangle => image::imageops::FilterType::Triangle,
        ResizeFilter::Lanczos3 => image::imageops::FilterType::Lanczos3,
    };
    let src = image::RgbaImage::from_raw(img.width, img.height, img.pixels.clone())?;
    let out = image::imageops::resize(&src, width, height, f);
    Some(GfxDecodedImage { width, height, pixels: out.into_raw() })
}

/// Why a stored image could not be resized.
#[derive(Clone, Copy, Debug, PartialEq, Eq, Structural)]
pub enum ResizeError {
    /// The stored pixels do not fill the stored size.
    BadStoredImage,
}

/// Resizes a stored image with the filter its quality asks for: its
/// pixels are a resize outcome of the stored pixels with that filter.
pub fn resize_decoded(img: &GfxDecodedImage, args: &ResizeDecodedImageArgs) -> (r: Result<GfxDecodedImage, ResizeError>)
    requires
        4 * args.width * args.height <= usize::MAX,
    ensures
        r is Ok <==> 4 * img.width * img.height <= img.pixels@.len(),
        r matches Ok(out) ==> out.width == args.width && out.height == args.height
            && out.pixels@.len() == 4 * args.width * args.height
            && rgba_resize_outcome(img.pixels@, img.width, img.height, args.width, args.height,
                resize_filter_spec(opt_string_view(args.quality)), out.pixels@),
{
    let filter = resize_filter_for(opt_str(&args.quality));
    match resize_rgba(img, args.width, args.height, filter) {
        Some(out) => Ok(out),
        None => Err(ResizeError::BadStoredImage),
    }
}

} // verus!
