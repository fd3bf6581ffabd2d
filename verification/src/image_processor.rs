//! Transcoding: decode, shrink to a maximum width, re-encode as WebP.

use crate::text::{
    div_round_half_even, div_round_half_up, fixed2_string, fixed2_text, outcome_view,
    round_half_even,
};
use vstd::prelude::*;
use vstd::string::*;

verus! {

/// A decoded picture: 8-bit RGBA samples, row by row.
#[derive(Debug, Clone)]
pub struct Raster {
    pub width: u32,
    pub height: u32,
    pub rgba: Vec<u8>,
}

/// The mathematical content of a [`Raster`].
pub ghost struct RasterView {
    pub width: u32,
    pub height: u32,
    pub rgba: Seq<u8>,
}

impl View for Raster {
    type V = RasterView;

    open spec fn view(&self) -> RasterView {
        RasterView { width: self.width, height: self.height, rgba: self.rgba@ }
    }
}

impl RasterView {
    /// Four samples for each pixel.
    pub open spec fn wf(self) -> bool {
        self.rgba.len() == 4 * self.width * self.height
    }

    /// The picture has at least one pixel.
    pub open spec fn nonempty(self) -> bool {
        self.width > 0 && self.height > 0
    }
}

/// What decoding `bytes` as an image of a sniffed format gives: the picture's width, height
/// and RGBA samples, or the decoder's message.
pub uninterp spec fn decoded(bytes: Seq<u8>) -> Result<(u32, u32, Seq<u8>), Seq<char>>;

/// The samples of a picture resampled to `new_width` by `new_height` with the Lanczos
/// filter of window 3.
pub uninterp spec fn lanczos3(
    rgba: Seq<u8>,
    width: u32,
    height: u32,
    new_width: u32,
    new_height: u32,
) -> Seq<u8>;

/// The width, height and samples of a picture scaled, by the fast sampling that thumbnails
/// use, to the largest size that keeps its aspect ratio and fits in a square of side
/// `max_size`; a single pixel where the square is empty.
pub uninterp spec fn thumbnail_of(rgba: Seq<u8>, width: u32, height: u32, max_size: u32) -> (
    u32,
    u32,
    Seq<u8>,
);

/// The WebP file of a picture, or the encoder's message.
pub uninterp spec fn webp_encoded(rgba: Seq<u8>, width: u32, height: u32) -> Result<
    Seq<u8>,
    Seq<char>,
>;

/// The PNG file of a picture, or the encoder's message.
pub uninterp spec fn png_encoded(rgba: Seq<u8>, width: u32, height: u32) -> Result<
    Seq<u8>,
    Seq<char>,
>;

/// The picture that [`decoded`] describes, as a view.
pub open spec fn raster_of(d: (u32, u32, Seq<u8>)) -> RasterView {
    RasterView { width: d.0, height: d.1, rgba: d.2 }
}

/// The height that keeps the aspect ratio when a picture is shrunk to `max_width`.
pub open spec fn scaled_height(width: nat, height: nat, max_width: nat) -> nat {
    div_round_half_up(height * max_width, width)
}

/// The size a picture is transcoded to: unchanged up to `max_width`, else `max_width` wide
/// with the height scaled alike.
pub open spec fn target_dimensions(width: nat, height: nat, max_width: nat) -> (nat, nat) {
    if width > max_width {
        (max_width, scaled_height(width, height, max_width))
    } else {
        (width, height)
    }
}

/// The picture after the resize step. A target without pixels has no samples.
pub open spec fn fitted(img: RasterView, max_width: u32) -> RasterView {
    if img.width > max_width {
        let h = scaled_height(img.width as nat, img.height as nat, max_width as nat) as u32;
        RasterView {
            width: max_width,
            height: h,
            rgba: if max_width == 0 || h == 0 {
                Seq::empty()
            } else {
                lanczos3(img.rgba, img.width, img.height, max_width, h)
            },
        }
    } else {
        img
    }
}

/// Encoding a picture, with the message of a failure.
pub open spec fn encode_outcome(img: RasterView, prefix: Seq<char>) -> Result<
    Seq<u8>,
    Seq<char>,
> {
    match webp_encoded(img.rgba, img.width, img.height) {
        Ok(bytes) => Ok(bytes),
        Err(e) => Err(prefix + e),
    }
}

/// Transcoding a decoded picture.
pub open spec fn process_outcome(img: RasterView, max_width: u32) -> Result<Seq<u8>, Seq<char>> {
    encode_outcome(fitted(img, max_width), "Failed to encode as WebP: "@)
}

/// Transcoding a file's bytes.
pub open spec fn transcode_outcome(bytes: Seq<u8>, max_width: u32) -> Result<
    Seq<u8>,
    Seq<char>,
> {
    match decoded(bytes) {
        Err(e) => Err("Failed to load image from memory: "@ + e),
        Ok(d) => process_outcome(raster_of(d), max_width),
    }
}

/// Transcoding raw RGBA samples of a stated size: the samples must suffice for the size,
/// those beyond it are left out, and the picture goes through a PNG file into the
/// transcoder.
pub open spec fn rgba_outcome(width: u32, height: u32, rgba: Seq<u8>, max_width: u32) -> Result<
    Seq<u8>,
    Seq<char>,
> {
    if 4 * width * height > rgba.len() {
        Err("Failed to create image from clipboard data"@)
    } else {
        match png_encoded(rgba.subrange(0, 4 * width * height), width, height) {
            Err(e) => Err("Failed to encode clipboard image: "@ + e),
            Ok(png) => transcode_outcome(png, max_width),
        }
    }
}

/// Whether the RGBA samples of a square of side `max_size` can be addressed.
pub open spec fn thumbnail_fits_memory(max_size: u32) -> bool {
    4 * max_size * max_size <= usize::MAX
}

/// The thumbnail of a picture under a bound has four samples for each pixel and at least
/// one pixel, and under a bound of at least one pixel no side of it is longer than the
/// bound.
pub open spec fn thumbnail_in_bounds(img: RasterView, max_size: u32) -> bool {
    let small = raster_of(thumbnail_of(img.rgba, img.width, img.height, max_size));
    small.wf() && small.nonempty() && (max_size > 0 ==> small.width <= max_size && small.height
        <= max_size)
}

/// Making a thumbnail of a decoded picture. A picture without pixels goes to the encoder
/// as it is; a bound whose square cannot be held in memory is refused.
pub open spec fn thumbnail_outcome(img: RasterView, max_size: u32) -> Result<
    Seq<u8>,
    Seq<char>,
> {
    if !img.nonempty() {
        encode_outcome(img, "Failed to encode thumbnail: "@)
    } else if !thumbnail_fits_memory(max_size) {
        Err("Failed to encode thumbnail: "@ + "the size limit is too large"@)
    } else {
        encode_outcome(
            raster_of(thumbnail_of(img.rgba, img.width, img.height, max_size)),
            "Failed to encode thumbnail: "@,
        )
    }
}

/// The text of a size in bytes: kilobytes below 1024 KB, megabytes from there on, with two
/// digits after the point.
pub open spec fn size_text(len: nat) -> Seq<char> {
    if len < 1048576 {
        fixed2_text(div_round_half_even(len * 100, 1024)) + seq![' ', 'K', 'B']
    } else {
        fixed2_text(div_round_half_even(len * 100, 1048576)) + seq![' ', 'M', 'B']
    }
}

/// Decodes with `image::load_from_memory` and converts the picture with
/// `DynamicImage::to_rgba8`. The result is the one that [`decoded`] names; a decoded
/// picture has four samples for each pixel.
#[verifier::external_body]
fn decode_rgba(bytes: &[u8]) -> (res: Result<Raster, String>)
    ensures
        match res {
            Ok(img) => decoded(bytes@) == Ok::<(u32, u32, Seq<u8>), Seq<char>>(
                (img.width, img.height, img.rgba@),
            ) && img@.wf(),
            Err(e) => decoded(bytes@) == Err::<(u32, u32, Seq<u8>), Seq<char>>(e@),
        },
{
    match image::load_from_memory(bytes) {
        Ok(img) => {
            let buf = img.to_rgba8();
            Ok(Raster { width: buf.width(), height: buf.height(), rgba: buf.into_raw() })
        },
        Err(e) => Err(e.to_string()),
    }
}

/// Resamples with `image::imageops::resize` and the filter `Lanczos3`. The result has the
/// size asked for and the samples that [`lanczos3`] names.
#[verifier::external_body]
fn resample_lanczos3(img: &Raster, new_width: u32, new_height: u32) -> (res: Raster)
    requires
        img@.wf(),
        img@.nonempty(),
        new_width > 0,
        new_height > 0,
        4 * new_width * new_height <= usize::MAX,
    ensures
        res.width == new_width,
        res.height == new_height,
        res.rgba@ == lanczos3(img.rgba@, img.width, img.height, new_width, new_height),
        res@.wf(),
{
    let src = image::RgbaImage::from_raw(img.width, img.height, img.rgba.clone()).unwrap();
    let out = image::imageops::resize(
        &src,
        new_width,
        new_height,
        image::imageops::FilterType::Lanczos3,
    );
    Raster { width: out.width(), height: out.height(), rgba: out.into_raw() }
}

/// Scales with `DynamicImage::thumbnail` to a square bound. The result is the one that
/// [`thumbnail_of`] names; it has at least one pixel, and under a bound of at least one
/// pixel neither side is longer than the bound.
#[verifier::external_body]
fn thumbnail_rgba(img: &Raster, max_size: u32) -> (res: Raster)
    requires
        img@.wf(),
        img@.nonempty(),
        thumbnail_fits_memory(max_size),
    ensures
        (res.width, res.height, res.rgba@) == thumbnail_of(
            img.rgba@,
            img.width,
            img.height,
            max_size,
        ),
        res@.wf(),
        res@.nonempty(),
        max_size > 0 ==> res.width <= max_size && res.height <= max_size,
{
    let src = image::RgbaImage::from_raw(img.width, img.height, img.rgba.clone()).unwrap();
    let out = image::DynamicImage::ImageRgba8(src).thumbnail(max_size, max_size).to_rgba8();
    Raster { width: out.width(), height: out.height(), rgba: out.into_raw() }
}

/// Encodes with `DynamicImage::write_to` and the format `WebP` into a buffer in memory.
/// The result is the one that [`webp_encoded`] names.
#[verifier::external_body]
fn encode_webp(img: &Raster) -> (res: Result<Vec<u8>, String>)
    requires
        img@.wf(),
    ensures
        outcome_view(res) == webp_encoded(img.rgba@, img.width, img.height),
{
    let src = image::RgbaImage::from_raw(img.width, img.height, img.rgba.clone()).unwrap();
    let mut buffer = Vec::new();
    let mut cursor = std::io::Cursor::new(&mut buffer);
    match image::DynamicImage::ImageRgba8(src).write_to(&mut cursor, image::ImageFormat::WebP) {
        Ok(()) => Ok(buffer),
        Err(e) => Err(e.to_string()),
    }
}

/// Encodes with `DynamicImage::write_to` and the format `Png` into a buffer in memory.
/// The result is the one that [`png_encoded`] names.
#[verifier::external_body]
fn encode_png(img: &Raster) -> (res: Result<Vec<u8>, String>)
    requires
        img@.wf(),
    ensures
        outcome_view(res) == png_encoded(img.rgba@, img.width, img.height),
{
    let src = image::RgbaImage::from_raw(img.width, img.height, img.rgba.clone()).unwrap();
    let mut buffer = Vec::new();
    let mut cursor = std::io::Cursor::new(&mut buffer);
    match image::DynamicImage::ImageRgba8(src).write_to(&mut cursor, image::ImageFormat::Png) {
        Ok(()) => Ok(buffer),
        Err(e) => Err(e.to_string()),
    }
}

/// The number of samples of a picture of the given size.
fn sample_count(width: u32, height: u32) -> (n: u128)
    ensures
        n == 4 * width * height,
{
    assert(4 * (width as u128) * (height as u128) <= 4 * 0xffff_ffff * 0xffff_ffff)
        by (nonlinear_arith)
        requires
            width <= u32::MAX,
            height <= u32::MAX,
    ;
    4 * (width as u128) * (height as u128)
}

/// Downsizes and recompresses images for the web.
pub struct ImageProcessor {
    max_width: u32,
}

impl ImageProcessor {
    /// The widest picture that is left at its size.
    pub closed spec fn spec_max_width(&self) -> u32 {
        self.max_width
    }

    pub fn new(max_width: u32) -> (processor: Self)
        ensures
            processor.spec_max_width() == max_width,
    {
        Self { max_width }
    }

    #[verifier::when_used_as_spec(spec_max_width)]
    pub fn max_width(&self) -> (w: u32)
        ensures
            w == self.spec_max_width(),
    {
        self.max_width
    }

    /// The size to which a picture of the given size is transcoded.
    pub fn target_size(&self, width: u32, height: u32) -> (size: (u32, u32))
        ensures
            (size.0 as nat, size.1 as nat) == target_dimensions(
                width as nat,
                height as nat,
                self.max_width() as nat,
            ),
            size.0 <= width,
            size.1 <= height,
            width <= self.max_width() ==> size == (width, height),
            width > self.max_width() ==> size.0 == self.max_width(),
    {
        if width > self.max_width {
            let w: u128 = width as u128;
            assert((height as u128) * (self.max_width as u128) <= 0xffff_ffff * 0xffff_ffff)
                by (nonlinear_arith)
                requires
                    self.max_width <= u32::MAX,
                    height <= u32::MAX,
            ;
            let product: u128 = (height as u128) * (self.max_width as u128);
            assert(product <= height * (w - 1) && product == height as nat * self.max_width as nat)
                by (nonlinear_arith)
                requires
                    product == (height as u128) * (self.max_width as u128),
                    self.max_width < w,
                    w <= u32::MAX,
                    height <= u32::MAX,
            ;
            assert(height * (w - 1) <= 0xffff_ffff * 0xffff_ffff) by (nonlinear_arith)
                requires
                    w <= u32::MAX,
                    height <= u32::MAX,
                    w >= 1,
            ;
            let scaled: u128 = (2 * product + w) / (2 * w);
            assert(scaled <= height) by (nonlinear_arith)
                requires
                    scaled == (2 * product + w) / (2 * w),
                    product <= height * (w - 1),
                    w >= 1,
            ;
            (self.max_width, scaled as u32)
        } else {
            (width, height)
        }
    }

    /// The resize step: a picture wider than the maximum is resampled to the target size,
    /// any other is handed back as it is.
    pub fn fit_to_width(&self, img: Raster) -> (out: Raster)
        requires
            img@.wf(),
        ensures
            out@ == fitted(img@, self.max_width()),
            out@.wf(),
            (out.width as nat, out.height as nat) == target_dimensions(
                img.width as nat,
                img.height as nat,
                self.max_width() as nat,
            ),
    {
        let (w, h) = self.target_size(img.width, img.height);
        if img.width > self.max_width && (w == 0 || h == 0) {
            let out = Raster { width: w, height: h, rgba: Vec::new() };
            assert(4 * w * h == 0) by (nonlinear_arith)
                requires
                    w == 0 || h == 0,
            ;
            out
        } else if img.width > self.max_width {
            let len: usize = img.rgba.len();
            assert(4 * w * h <= 4 * img.width * img.height) by (nonlinear_arith)
                requires
                    w <= img.width,
                    h <= img.height,
            ;
            assert(4 * w * h <= len);
            resample_lanczos3(&img, w, h)
        } else {
            img
        }
    }

    /// Encodes a picture, putting `prefix` before the encoder's message.
    fn encode(img: &Raster, prefix: &str) -> (res: Result<Vec<u8>, String>)
        requires
            img@.wf(),
        ensures
            outcome_view(res) == encode_outcome(img@, prefix@),
    {
        match encode_webp(img) {
            Ok(bytes) => Ok(bytes),
            Err(e) => Err(String::from_str(prefix).concat(e.as_str())),
        }
    }

    /// Transcodes a decoded picture: the resize step, then the WebP encoder.
    pub fn process_image(&self, img: Raster) -> (res: Result<Vec<u8>, String>)
        requires
            img@.wf(),
        ensures
            outcome_view(res) == process_outcome(img@, self.max_width()),
    {
        let out = self.fit_to_width(img);
        Self::encode(&out, "Failed to encode as WebP: ")
    }

    /// Transcodes the bytes of an image file of any format the decoder knows.
    pub fn process_from_bytes(&self, bytes: &[u8]) -> (res: Result<Vec<u8>, String>)
        ensures
            outcome_view(res) == transcode_outcome(bytes@, self.max_width()),
    {
        match decode_rgba(bytes) {
            Ok(img) => self.process_image(img),
            Err(e) => Err(String::from_str("Failed to load image from memory: ").concat(e.as_str())),
        }
    }

    /// Transcodes a snapshot of raw RGBA samples, as a clipboard hands it over: the
    /// snapshot is written as a PNG file, which then is transcoded like any other.
    pub fn process_from_rgba(&self, width: u32, height: u32, rgba: Vec<u8>) -> (res: Result<
        Vec<u8>,
        String,
    >)
        ensures
            outcome_view(res) == rgba_outcome(width, height, rgba@, self.max_width()),
    {
        let need: u128 = sample_count(width, height);
        if need > rgba.len() as u128 {
            Err(String::from_str("Failed to create image from clipboard data"))
        } else {
            let mut samples = rgba;
            samples.truncate(need as usize);
            let snapshot = Raster { width, height, rgba: samples };
            match encode_png(&snapshot) {
                Ok(png) => self.process_from_bytes(png.as_slice()),
                Err(e) => Err(
                    String::from_str("Failed to encode clipboard image: ").concat(e.as_str()),
                ),
            }
        }
    }

    /// Makes the thumbnail of a decoded picture. The thumbnail of a picture with pixels has
    /// at least one pixel, and under a bound of at least one pixel no side of it is longer
    /// than the bound.
    pub fn thumbnail_image(&self, img: Raster, max_size: u32) -> (res: Result<Vec<u8>, String>)
        requires
            img@.wf(),
        ensures
            outcome_view(res) == thumbnail_outcome(img@, max_size),
            res is Ok && img@.nonempty() ==> thumbnail_in_bounds(img@, max_size),
    {
        if img.width == 0 || img.height == 0 {
            Self::encode(&img, "Failed to encode thumbnail: ")
        } else if sample_count(max_size, max_size) > usize::MAX as u128 {
            Err(
                String::from_str("Failed to encode thumbnail: ").concat(
                    "the size limit is too large",
                ),
            )
        } else {
            let small = thumbnail_rgba(&img, max_size);
            Self::encode(&small, "Failed to encode thumbnail: ")
        }
    }

    /// Decodes transcoded bytes anew and makes a thumbnail that fits a square of side
    /// `max_size`.
    pub fn create_thumbnail(&self, bytes: &[u8], max_size: u32) -> (res: Result<Vec<u8>, String>)
        ensures
            outcome_view(res) == match decoded(bytes@) {
                Err(e) => Err("Failed to load image: "@ + e),
                Ok(d) => thumbnail_outcome(raster_of(d), max_size),
            },
            res is Ok ==> (decoded(bytes@) matches Ok(d) && (raster_of(d).nonempty()
                ==> thumbnail_in_bounds(raster_of(d), max_size))),
    {
        match decode_rgba(bytes) {
            Ok(img) => self.thumbnail_image(img, max_size),
            Err(e) => Err(String::from_str("Failed to load image: ").concat(e.as_str())),
        }
    }

    /// Describes a buffer's size for a reader.
    pub fn get_size_info(&self, bytes: &[u8]) -> (info: String)
        ensures
            info@ == size_text(bytes@.len()),
    {
        let len: u128 = bytes.len() as u128;
        if len < 1048576 {
            let mut s = fixed2_string(round_half_even(len * 100, 1024));
            proof {
                reveal_strlit(" KB");
            }
            s.append(" KB");
            assert(s@ =~= size_text(bytes@.len()));
            s
        } else {
            let mut s = fixed2_string(round_half_even(len * 100, 1048576));
            proof {
                reveal_strlit(" MB");
            }
            s.append(" MB");
            assert(s@ =~= size_text(bytes@.len()));
            s
        }
    }
}

/// A picture that is not wider than the maximum keeps its size; a wider one becomes exactly
/// as wide as the maximum, with its height scaled by the same ratio and rounded.
pub proof fn lemma_target_dimensions(width: nat, height: nat, max_width: nat)
    ensures
        width <= max_width ==> target_dimensions(width, height, max_width) == (width, height),
        width > max_width ==> target_dimensions(width, height, max_width) == (
            max_width,
            (2 * height * max_width + width) / (2 * width),
        ),
        target_dimensions(width, height, max_width).0 <= max_width,
{
    assert(2 * (height * max_width) == 2 * height * max_width) by (nonlinear_arith);
}

/// Transcoding what was already transcoded resizes nothing: the target size of a target
/// size is that size.
pub proof fn lemma_target_dimensions_idempotent(width: nat, height: nat, max_width: nat)
    ensures
        ({
            let once = target_dimensions(width, height, max_width);
            target_dimensions(once.0, once.1, max_width) == once
        }),
{
}

/// A picture that was through the resize step passes it unchanged.
pub proof fn lemma_fitted_idempotent(img: RasterView, max_width: u32)
    ensures
        fitted(fitted(img, max_width), max_width) == fitted(img, max_width),
{
}

} // verus!
