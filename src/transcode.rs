use vstd::prelude::*;
use vstd::arithmetic::div_mod::{lemma_fundamental_div_mod, lemma_mod_pos_bound};

verus! {

#[verifier::external_type_specification]
#[verifier::external_body]
pub struct ExDynamicImage(image::DynamicImage);

/// Width, in pixels, of every compressed image.
pub const TARGET_WIDTH: u32 = 1080;

/// JPEG quality of compressed images.
pub const JPEG_QUALITY: i32 = 80;

/// Bytes per pixel of a packed RGB buffer.
pub const RGB_PIXEL_SIZE: u64 = 3;

/// Resampling filters for resizing.
#[derive(Clone, Copy, Debug, PartialEq, Eq, Structural)]
pub enum Resampling {
    Nearest,
    Triangle,
    CatmullRom,
    Gaussian,
    Lanczos3,
}

/// Chrominance subsampling of an encoded JPEG.
#[derive(Clone, Copy, Debug, PartialEq, Eq, Structural)]
pub enum ChromaSubsampling {
    /// 4:4:4, no subsampling.
    Full,
    /// 4:2:2, one chrominance sample per 2x1 block.
    Sub2x1,
    /// 4:2:0, one chrominance sample per 2x2 block.
    Sub2x2,
    /// Luminance only.
    Gray,
}

/// How a compressed image is encoded.
#[derive(Clone, Copy, Debug, PartialEq, Eq, Structural)]
pub struct JpegSettings {
    pub quality: i32,
    pub subsampling: ChromaSubsampling,
}

/// Quality 80 with 2:1 horizontal chroma subsampling.
pub fn jpeg_settings() -> (r: JpegSettings)
    ensures
        r.quality == JPEG_QUALITY,
        r.subsampling == ChromaSubsampling::Sub2x1,
{
    JpegSettings { quality: JPEG_QUALITY, subsampling: ChromaSubsampling::Sub2x1 }
}

/// Why an image could not be transcoded.
#[derive(Clone, Debug)]
pub struct CompressionError(pub String);

impl CompressionError {
    pub fn message(&self) -> (r: String)
        ensures
            r@ == self.0@,
    {
        self.0.clone()
    }
}

/// Packed 8-bit RGB pixels, row after row, ready for JPEG encoding.
pub struct RgbFrame {
    pub pixels: Vec<u8>,
    pub width: u32,
    pub height: u32,
}

impl RgbFrame {
    /// Enough bytes for three per pixel, rows packed.
    pub open spec fn wf(&self) -> bool {
        self.pixels@.len() >= RGB_PIXEL_SIZE * self.width * self.height
    }

    /// Bytes from one row to the next.
    pub fn pitch(&self) -> (r: u64)
        ensures
            r == RGB_PIXEL_SIZE * self.width,
    {
        RGB_PIXEL_SIZE * self.width as u64
    }
}

/// The height that keeps the aspect ratio of a `width` x `height` image at
/// the target width: `height * 1080 / width`, rounded to the nearest integer
/// (halves up).
pub open spec fn scaled_height(width: int, height: int) -> int {
    (2 * (TARGET_WIDTH as int) * height + width) / (2 * width)
}

/// Size to resize a `width` x `height` image to: the target width, and the
/// height that keeps the aspect ratio. `None` for an image of no width, or
/// when the height does not fit in a `u32`.
pub fn target_dimensions(width: u32, height: u32) -> (r: Option<(u32, u32)>)
    ensures
        r is Some <==> width > 0 && scaled_height(width as int, height as int) <= u32::MAX,
        r is Some ==> r.unwrap() == (TARGET_WIDTH, scaled_height(width as int, height as int) as u32),
{
    if width == 0 {
        return None;
    }
    let h64 = height as u64;
    assert(2 * (TARGET_WIDTH as u64) * h64 <= 2160 * 0xffff_ffffu64) by (nonlinear_arith)
        requires
            h64 <= 0xffff_ffffu64,
            TARGET_WIDTH == 1080,
    ;
    let num: u64 = 2 * (TARGET_WIDTH as u64) * h64 + width as u64;
    let den: u64 = 2 * (width as u64);
    let h = num / den;
    if h > u32::MAX as u64 {
        None
    } else {
        Some((TARGET_WIDTH, h as u32))
    }
}

/// The resized height is the integer nearest to `height * 1080 / width`:
/// twice the distance between `h2 * width` and `1080 * height` is at most
/// `width`, so the aspect ratio is kept up to rounding.
pub proof fn lemma_target_keeps_aspect_ratio(width: u32, height: u32)
    requires
        width > 0,
    ensures
        2 * scaled_height(width as int, height as int) * width <= 2 * (TARGET_WIDTH as int) * height
            + width,
        2 * (TARGET_WIDTH as int) * height < 2 * scaled_height(width as int, height as int) * width
            + width,
{
    let n = 2 * (TARGET_WIDTH as int) * height + width;
    let d = 2 * (width as int);
    lemma_fundamental_div_mod(n, d);
    lemma_mod_pos_bound(n, d);
    let q = n / d;
    assert(2 * q * width == d * q) by (nonlinear_arith)
        requires
            d == 2 * (width as int),
    ;
}

/// Width and height of the image that `image::load_from_memory` decodes
/// from `data`, or `None` when it decodes none.
pub uninterp spec fn decoded_dimensions(data: Seq<u8>) -> Option<(u32, u32)>;

/// Relies on `image::load_from_memory` and `GenericImageView::dimensions`:
/// decodes an image in any format the build enables, with its width and
/// height, or gives the decoder's error text. Decoding depends on the bytes
/// alone.
#[verifier::external_body]
fn decode_image(data: &[u8]) -> (r: Result<(image::DynamicImage, u32, u32), String>)
    ensures
        r is Ok <==> decoded_dimensions(data@) is Some,
        r matches Ok((_, w, h)) ==> decoded_dimensions(data@) == Some((w, h)),
{
    image::load_from_memory(data).map(|img| {
        let (w, h) = image::GenericImageView::dimensions(&img);
        (img, w, h)
    }).map_err(|e| e.to_string())
}

/// The larger of `n` and 1.
pub open spec fn at_least_one(n: u32) -> int {
    if n == 0 {
        1
    } else {
        n as int
    }
}

/// Relies on `DynamicImage::resize` (scaled to the largest size that fits
/// in `width` x `height`, aspect ratio kept, each side at least 1 pixel, as
/// `resize_dimensions` computes it), then `to_rgb8` and `into_raw`: an RGB
/// buffer of the resized image, three bytes per pixel, rows packed.
#[verifier::external_body]
fn resize_to_rgb(img: &image::DynamicImage, width: u32, height: u32, filter: Resampling) -> (r:
    RgbFrame)
    ensures
        r.wf(),
        1 <= r.width <= at_least_one(width),
        1 <= r.height <= at_least_one(height),
{
    let filter = match filter {
        Resampling::Nearest => image::imageops::FilterType::Nearest,
        Resampling::Triangle => image::imageops::FilterType::Triangle,
        Resampling::CatmullRom => image::imageops::FilterType::CatmullRom,
        Resampling::Gaussian => image::imageops::FilterType::Gaussian,
        Resampling::Lanczos3 => image::imageops::FilterType::Lanczos3,
    };
    let buffer = img.resize(width, height, filter).to_rgb8();
    let (width, height) = buffer.dimensions();
    RgbFrame { pixels: buffer.into_raw(), width, height }
}

/// Text of the error for bytes that decode to no image.
pub open spec fn decode_error_prefix() -> Seq<char> {
    "Failed to map image to dynamic image: "@
}

/// The decoded image can be resized: it has a width, and the height that
/// keeps its aspect ratio fits in a `u32`.
pub open spec fn resizable(data: Seq<u8>) -> bool {
    decoded_dimensions(data) matches Some((w, h)) && w > 0 && scaled_height(w as int, h as int)
        <= u32::MAX
}

/// Decodes `image_data`, resizes it with a Lanczos filter to the target
/// width and the height that keeps its aspect ratio, and converts it to
/// packed RGB, ready for JPEG encoding with `jpeg_settings`. The frame fits
/// within the target size, and is at least one pixel each way.
pub fn resize_for_encoding(image_data: Vec<u8>) -> (r: Result<RgbFrame, CompressionError>)
    ensures
        r is Ok <==> resizable(image_data@),
        decoded_dimensions(image_data@) is None ==> (r matches Err(e) && e.0@.len()
            >= decode_error_prefix().len() && e.0@.subrange(0, decode_error_prefix().len() as int)
            == decode_error_prefix()),
        r matches Ok(f) ==> ({
            let (w, h) = decoded_dimensions(image_data@).unwrap();
            &&& f.wf()
            &&& 1 <= f.width <= TARGET_WIDTH
            &&& 1 <= f.height <= at_least_one(scaled_height(w as int, h as int) as u32)
        }),
{
    let (image, width, height) = match decode_image(image_data.as_slice()) {
        Ok(decoded) => decoded,
        Err(text) => {
            let mut message = String::from_str("Failed to map image to dynamic image: ");
            message.append(text.as_str());
            assert(message@.subrange(0, decode_error_prefix().len() as int) =~= decode_error_prefix());
            return Err(CompressionError(message));
        },
    };
    match target_dimensions(width, height) {
        None => Err(CompressionError(String::from_str("Image size cannot be scaled"))),
        Some((new_width, new_height)) => Ok(
            resize_to_rgb(&image, new_width, new_height, Resampling::Lanczos3),
        ),
    }
}

} // verus!
