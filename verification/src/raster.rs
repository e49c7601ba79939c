//! A decoded image as rows of RGBA pixels, and the darkening of its caption band.

use crate::error::OverlayError;
use crate::overlay::{band_top, spec_band_top};
use image::codecs::jpeg::JpegEncoder;
use image::ColorType;
use image::ImageError;
use vstd::prelude::*;

verus! {

/// Why the crate `image` could not decode or encode; nothing of it is read here.
#[verifier::external_type_specification]
#[verifier::external_body]
pub struct ExImageError(image::ImageError);

/// An image of `width` by `height` pixels. Each pixel is four bytes: red,
/// green, blue and opacity. Rows follow each other from the top, and in a row
/// the pixels from the left, so the buffer holds `4 * width * height` bytes.
#[derive(Debug)]
pub struct Raster {
    width: u32,
    height: u32,
    pixels: Vec<u8>,
}

/// What a `Raster` holds.
pub ghost struct RasterView {
    pub width: nat,
    pub height: nat,
    pub pixels: Seq<u8>,
}

impl RasterView {
    /// Whether the buffer has the length that the sides ask for.
    pub open spec fn well_formed(self) -> bool {
        self.pixels.len() == 4 * self.width * self.height
    }
}

impl View for Raster {
    type V = RasterView;

    closed spec fn view(&self) -> RasterView {
        RasterView {
            width: self.width as nat,
            height: self.height as nat,
            pixels: self.pixels@,
        }
    }
}

/// A colour channel at 30 % of its brightness, rounded down.
pub open spec fn spec_dim(channel: u8) -> u8 {
    (channel * 3 / 10) as u8
}

/// The row of the pixel that byte `k` of the buffer belongs to.
pub open spec fn spec_row_of(width: nat, k: int) -> int {
    k / ((4 * width) as int)
}

/// Byte `k` of the buffer once the caption band is darkened. Above the band
/// nothing changes. In the band each colour channel is dimmed and the
/// opacity is full.
pub open spec fn spec_darkened_byte(image: RasterView, k: int) -> u8 {
    if spec_row_of(image.width, k) < spec_band_top(image.height) {
        image.pixels[k]
    } else if k % 4 == 3 {
        255
    } else {
        spec_dim(image.pixels[k])
    }
}

/// The image with its caption band darkened. The sides stay as they are.
pub open spec fn spec_darken(image: RasterView) -> RasterView {
    RasterView {
        width: image.width,
        height: image.height,
        pixels: Seq::new(image.pixels.len(), |k: int| spec_darkened_byte(image, k)),
    }
}

/// Longest side in pixels that a JPEG file can record.
pub const MAX_JPEG_SIDE: u32 = 65535;

/// Whether a JPEG file can record an image of these sides.
pub open spec fn spec_fits_jpeg(width: nat, height: nat) -> bool {
    width <= MAX_JPEG_SIDE && height <= MAX_JPEG_SIDE
}

/// The image that the crate `image` decodes from these bytes, as RGBA pixels
/// of 8 bits a channel; none where it decodes nothing.
pub uninterp spec fn decoded_image(bytes: Seq<u8>) -> Option<RasterView>;

/// The JPEG file that the crate `image` writes for these RGBA pixels at its
/// default quality; none where it writes nothing.
pub uninterp spec fn jpeg_encoding(width: nat, height: nat, pixels: Seq<u8>) -> Option<Seq<u8>>;

/// `image::load_from_memory`, which guesses the format and decodes, followed
/// by `DynamicImage::to_rgba8`, which copies the pixels into a fresh buffer of
/// exactly four bytes a pixel. The result is a function of the bytes alone.
#[verifier::external_body]
fn decode_rgba(bytes: &[u8]) -> (decoded: Result<Raster, ImageError>)
    ensures
        decoded is Ok <==> decoded_image(bytes@) is Some,
        decoded matches Ok(raster) ==> Some(raster@) == decoded_image(bytes@)
            && raster@.well_formed(),
{
    let rgba = image::load_from_memory(bytes)?.to_rgba8();
    Ok(Raster { width: rgba.width(), height: rgba.height(), pixels: rgba.into_raw() })
}

/// `JpegEncoder::encode` on an encoder made by `JpegEncoder::new` that writes
/// into a vector. The call panics where the buffer's length is not
/// `4 * width * height`, which `requires` leaves out. It refuses a side that
/// does not fit the 16 bits of a JPEG frame header, and nothing else, since
/// writing into a vector does not fail. The result is a function of the
/// pixels and the sides alone.
#[verifier::external_body]
fn encode_rgba_as_jpeg(pixels: &[u8], width: u32, height: u32) -> (encoded: Result<
    Vec<u8>,
    ImageError,
>)
    requires
        pixels@.len() == 4 * width * height,
    ensures
        encoded is Ok <==> spec_fits_jpeg(width as nat, height as nat),
        encoded is Ok <==> jpeg_encoding(width as nat, height as nat, pixels@) is Some,
        encoded matches Ok(bytes) ==> Some(bytes@) == jpeg_encoding(
            width as nat,
            height as nat,
            pixels@,
        ),
{
    let mut bytes = Vec::new();
    JpegEncoder::new(&mut bytes).encode(pixels, width, height, ColorType::Rgba8)?;
    Ok(bytes)
}

fn dim(channel: u8) -> (dimmed: u8)
    ensures
        dimmed == spec_dim(channel),
{
    ((channel as u16) * 3 / 10) as u8
}

proof fn lemma_band_starts_at(width: nat, top: nat, k: int)
    requires
        width > 0,
        k >= 0,
    ensures
        spec_row_of(width, k) < top <==> k < top * (4 * width),
{
    let d: int = (4 * width) as int;
    vstd::arithmetic::div_mod::lemma_fundamental_div_mod(k, d);
    vstd::arithmetic::div_mod::lemma_mod_bound(k, d);
    let q: int = k / d;
    if q < top {
        assert(d * q + d <= d * top) by (nonlinear_arith)
            requires
                q + 1 <= top,
                d > 0,
        ;
        assert(d * top == top * d) by (nonlinear_arith);
    } else {
        assert(d * q >= d * top) by (nonlinear_arith)
            requires
                q >= top,
                d > 0,
        ;
        assert(d * top == top * d) by (nonlinear_arith);
    }
}

fn darken_from(pixels: &mut Vec<u8>, width: u32, height: u32)
    requires
        old(pixels)@.len() == 4 * width * height,
    ensures
        final(pixels)@ == spec_darken(
            RasterView { width: width as nat, height: height as nat, pixels: old(pixels)@ },
        ).pixels,
        final(pixels)@.len() == old(pixels)@.len(),
{
    let ghost before = RasterView {
        width: width as nat,
        height: height as nat,
        pixels: pixels@,
    };
    let len: usize = pixels.len();
    if len == 0 {
        return ;
    }
    let top: u32 = band_top(height);
    proof {
        assert(width > 0 && height > 0) by (nonlinear_arith)
            requires
                4 * width * height > 0,
        ;
        assert(top * (4 * width) <= 4 * width * height) by (nonlinear_arith)
            requires
                top <= height,
        ;
    }
    proof {
        assert(4 * width <= 4 * width * height) by (nonlinear_arith)
            requires
                height >= 1,
                width >= 0,
        ;
    }
    let row_bytes: usize = 4 * (width as usize);
    let start: usize = (top as usize) * row_bytes;
    let mut k: usize = start;
    proof {
        assert forall|j: int| 0 <= j < start implies pixels@[j] == spec_darkened_byte(
            before,
            j,
        ) by {
            lemma_band_starts_at(width as nat, top as nat, j);
        }
    }
    while k < len
        invariant
            start <= k <= len,
            width > 0,
            len == before.pixels.len(),
            pixels@.len() == len,
            before.width == width,
            before.height == height,
            top == spec_band_top(height as nat),
            start == top * (4 * width),
            forall|j: int| 0 <= j < k ==> pixels@[j] == spec_darkened_byte(before, j),
            forall|j: int| k <= j < len ==> pixels@[j] == before.pixels[j],
        decreases len - k,
    {
        let value: u8 = if k % 4 == 3 { 255 } else { dim(pixels[k]) };
        proof {
            lemma_band_starts_at(width as nat, top as nat, k as int);
        }
        pixels.set(k, value);
        k += 1;
    }
}

/// The place in the buffer of channel `channel` of the pixel in column `x`
/// of row `y`.
pub open spec fn spec_byte_index(width: nat, x: nat, y: nat, channel: nat) -> int {
    (4 * (y * width + x) + channel) as int
}

proof fn lemma_byte_index_in_bounds(image: RasterView, x: nat, y: nat, channel: nat)
    requires
        image.well_formed(),
        x < image.width,
        y < image.height,
        channel < 4,
    ensures
        0 <= spec_byte_index(image.width, x, y, channel) < image.pixels.len(),
        spec_row_of(image.width, spec_byte_index(image.width, x, y, channel)) == y,
        spec_byte_index(image.width, x, y, channel) % 4 == channel,
{
    let w: int = image.width as int;
    let h: int = image.height as int;
    let k: int = spec_byte_index(image.width, x, y, channel);
    assert(y * w + x + 1 <= w * h) by (nonlinear_arith)
        requires
            0 <= x < w,
            0 <= y < h,
    ;
    assert(4 * w * h == 4 * (w * h)) by (nonlinear_arith);
    assert(k == (4 * w) * y + (4 * x + channel)) by (nonlinear_arith)
        requires
            k == 4 * (y * w + x) + channel,
    ;
    vstd::arithmetic::div_mod::lemma_fundamental_div_mod_converse(
        k,
        4 * w,
        y as int,
        (4 * x + channel) as int,
    );
    vstd::arithmetic::div_mod::lemma_fundamental_div_mod_converse(
        k,
        4,
        (y * w + x) as int,
        channel as int,
    );
}

/// Darkening changes neither the sides of an image nor the length of its buffer.
pub proof fn law_darken_keeps_sides(image: RasterView)
    ensures
        spec_darken(image).width == image.width,
        spec_darken(image).height == image.height,
        spec_darken(image).pixels.len() == image.pixels.len(),
        image.well_formed() ==> spec_darken(image).well_formed(),
{
}

/// What darkening does to the pixel in column `x` of row `y`: above the band
/// nothing; in the band each colour channel is dimmed and the opacity is full.
pub proof fn law_darken_by_pixel(image: RasterView, x: nat, y: nat, channel: nat)
    requires
        image.well_formed(),
        x < image.width,
        y < image.height,
        channel < 4,
    ensures
        0 <= spec_byte_index(image.width, x, y, channel) < image.pixels.len(),
        spec_darken(image).pixels[spec_byte_index(image.width, x, y, channel)] == (if y
            < spec_band_top(image.height) {
            image.pixels[spec_byte_index(image.width, x, y, channel)]
        } else if channel == 3 {
            255u8
        } else {
            spec_dim(image.pixels[spec_byte_index(image.width, x, y, channel)])
        }),
{
    lemma_byte_index_in_bounds(image, x, y, channel);
}

impl Raster {
    #[verifier::type_invariant]
    spec fn sized(self) -> bool {
        self.pixels@.len() == 4 * self.width * self.height
    }

    /// Makes an image of `width` by `height` pixels from its bytes. There is
    /// no such image where the bytes are not `4 * width * height`.
    pub fn new(width: u32, height: u32, pixels: Vec<u8>) -> (raster: Option<Raster>)
        ensures
            raster is Some <==> pixels@.len() == 4 * width * height,
            raster matches Some(r) ==> r@ == (RasterView {
                width: width as nat,
                height: height as nat,
                pixels: pixels@,
            }),
    {
        proof {
            assert(4 * width * height <= 4 * 0xffff_ffff * 0xffff_ffff) by (nonlinear_arith)
                requires
                    0 <= width <= 0xffff_ffff,
                    0 <= height <= 0xffff_ffff,
            ;
        }
        let wanted: u128 = 4 * (width as u128) * (height as u128);
        if (pixels.len() as u128) == wanted {
            Some(Raster { width, height, pixels })
        } else {
            None
        }
    }

    /// The number of pixels in a row.
    pub fn width(&self) -> (width: u32)
        ensures
            width == self@.width,
    {
        self.width
    }

    /// The number of rows.
    pub fn height(&self) -> (height: u32)
        ensures
            height == self@.height,
    {
        self.height
    }

    /// The bytes of the image, which are `4 * width * height`.
    pub fn pixels(&self) -> (pixels: &Vec<u8>)
        ensures
            pixels@ == self@.pixels,
            self@.well_formed(),
    {
        proof {
            use_type_invariant(self);
        }
        &self.pixels
    }

    /// Takes the image apart into its bytes.
    pub fn into_pixels(self) -> (pixels: Vec<u8>)
        ensures
            pixels@ == self@.pixels,
            self@.well_formed(),
    {
        proof {
            use_type_invariant(&self);
        }
        self.pixels
    }

    /// The four bytes of the pixel in column `x` of row `y`: red, green, blue
    /// and opacity. There is none where `x` or `y` lies outside the image.
    pub fn pixel(&self, x: u32, y: u32) -> (found: Option<(u8, u8, u8, u8)>)
        ensures
            found is Some <==> x < self@.width && y < self@.height,
            found matches Some(p) ==> {
                &&& p.0 == self@.pixels[spec_byte_index(self@.width, x as nat, y as nat, 0)]
                &&& p.1 == self@.pixels[spec_byte_index(self@.width, x as nat, y as nat, 1)]
                &&& p.2 == self@.pixels[spec_byte_index(self@.width, x as nat, y as nat, 2)]
                &&& p.3 == self@.pixels[spec_byte_index(self@.width, x as nat, y as nat, 3)]
            },
    {
        proof {
            use_type_invariant(self);
        }
        if x >= self.width || y >= self.height {
            return None;
        }
        let len: usize = self.pixels.len();
        proof {
            lemma_byte_index_in_bounds(self@, x as nat, y as nat, 3);
            assert(spec_byte_index(self@.width, x as nat, y as nat, 3) < len);
        }
        let row_start: usize = (y as usize) * (self.width as usize);
        let at: usize = 4 * (row_start + (x as usize));
        Some((self.pixels[at], self.pixels[at + 1], self.pixels[at + 2], self.pixels[at + 3]))
    }

    /// Darkens the caption band: in the lowest 30 % of the rows every colour
    /// channel is brought to 30 % of its value and every pixel is made
    /// opaque. The rows above and the sides of the image stay as they are.
    /// What is done depends on the image alone, not on any caption.
    pub fn darken_band(self) -> (darkened: Raster)
        ensures
            darkened@ == spec_darken(self@),
            darkened@.width == self@.width,
            darkened@.height == self@.height,
            darkened@.pixels.len() == self@.pixels.len(),
    {
        proof {
            use_type_invariant(&self);
        }
        let Raster { width, height, pixels } = self;
        let mut pixels = pixels;
        darken_from(&mut pixels, width, height);
        Raster { width, height, pixels }
    }

    /// Decodes an image file held in memory. The format is guessed from the bytes.
    ///
    /// Fails with `DecodeError` exactly where the bytes are not an image in a
    /// format that can be read.
    pub fn decode(bytes: &[u8]) -> (raster: Result<Raster, OverlayError>)
        ensures
            raster is Ok <==> decoded_image(bytes@) is Some,
            raster is Err ==> raster == Err::<Raster, OverlayError>(OverlayError::DecodeError),
            raster matches Ok(r) ==> Some(r@) == decoded_image(bytes@),
    {
        match decode_rgba(bytes) {
            Ok(raster) => Ok(raster),
            Err(_) => Err(OverlayError::DecodeError),
        }
    }

    /// Writes the image as a JPEG file held in memory.
    ///
    /// Fails with `EncodeError` exactly where a side of the image is longer
    /// than `MAX_JPEG_SIDE`.
    pub fn encode_jpeg(&self) -> (file: Result<Vec<u8>, OverlayError>)
        ensures
            file is Ok <==> spec_fits_jpeg(self@.width, self@.height),
            file is Ok <==> jpeg_encoding(self@.width, self@.height, self@.pixels) is Some,
            file is Err ==> file == Err::<Vec<u8>, OverlayError>(OverlayError::EncodeError),
            file matches Ok(bytes) ==> Some(bytes@) == jpeg_encoding(
                self@.width,
                self@.height,
                self@.pixels,
            ),
    {
        proof {
            use_type_invariant(self);
        }
        match encode_rgba_as_jpeg(self.pixels.as_slice(), self.width, self.height) {
            Ok(bytes) => Ok(bytes),
            Err(_) => Err(OverlayError::EncodeError),
        }
    }
}

} // verus!
