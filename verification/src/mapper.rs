//! The glyph mapper: decoded pixels in, character grid out.
//!
//! Decoding and Lanczos resampling are done by the `image` crate behind
//! trusted wrappers; everything from resampled bytes to glyphs is verified.

use vstd::prelude::*;
use crate::config::{LumaPolicy, RenderConfig, RenderError};
use crate::glyph::{
    enhance_contrast, enhance_spec, fine_ramp, fine_ramp_spec, luma_spec, luminance, ramp_index,
    ramp_index_spec,
};
use crate::grid::CharacterGrid;

verus! {

/// A decoded frame: RGB triples, row-major, three bytes per pixel.
pub struct PixelBuffer {
    pub width: u32,
    pub height: u32,
    pub data: Vec<u8>,
}

impl PixelBuffer {
    /// The buffer holds at least one RGB triple for every pixel of the
    /// advertised dimensions.
    pub open spec fn wf(&self) -> bool {
        3 * (self.width * self.height) <= self.data@.len()
    }

    /// Wraps raw RGB bytes as a pixel buffer.
    pub fn new(width: u32, height: u32, data: Vec<u8>) -> (pb: PixelBuffer)
        requires
            3 * (width * height) <= data@.len(),
        ensures
            pb.width == width,
            pb.height == height,
            pb.data@ == data@,
            pb.wf(),
    {
        PixelBuffer { width, height, data }
    }
}

/// Channel `c` (0 red, 1 green, 2 blue) of the pixel at column `x`, row `y`
/// of a row-major RGB byte sequence of width `w`.
pub open spec fn chan(data: Seq<u8>, w: int, x: int, y: int, c: int) -> u8 {
    data[3 * (y * w + x) + c]
}

/// The glyph chosen for the pixel at `(x, y)`: luminance, then contrast
/// shaping, then ramp lookup.
pub open spec fn glyph_spec(
    data: Seq<u8>,
    w: int,
    x: int,
    y: int,
    ramp: Seq<char>,
    contrast_centi: int,
    policy: LumaPolicy,
) -> char {
    ramp[ramp_index_spec(
        enhance_spec(
            luma_spec(chan(data, w, x, y, 0), chan(data, w, x, y, 1), chan(data, w, x, y, 2), policy),
            contrast_centi,
        ),
        ramp.len() as int,
    )]
}

/// The whole grid of glyphs for a `w` by `h` RGB byte sequence.
pub open spec fn glyph_grid_spec(
    data: Seq<u8>,
    w: int,
    h: int,
    ramp: Seq<char>,
    contrast_centi: int,
    policy: LumaPolicy,
) -> Seq<Seq<char>> {
    Seq::new(h as nat, |y: int| Seq::new(w as nat, |x: int|
        glyph_spec(data, w, x, y, ramp, contrast_centi, policy)))
}

/// The resampling working buffer fits the address space: `resize` builds an
/// intermediate float image of the source width by the target height at 16
/// bytes per pixel, and an allocation may not exceed half the machine word's
/// range in bytes.
pub open spec fn resample_fits(src_width: int, new_height: int) -> bool {
    16 * (src_width * new_height) <= usize::MAX / 2
}

/// The RGB bytes that Lanczos3 resampling of a `width` by `height` RGB image
/// to `new_width` by `new_height` produces; a fixed function of its inputs.
pub uninterp spec fn lanczos3_of(
    data: Seq<u8>,
    width: int,
    height: int,
    new_width: int,
    new_height: int,
) -> Seq<u8>;

/// What decoding a byte sequence as an image yields: `None` when the bytes
/// are not a decodable image, else the row-major RGB bytes with the width
/// and the height; a fixed function of the bytes alone.
pub uninterp spec fn decoded_of(bytes: Seq<u8>) -> Option<(Seq<u8>, int, int)>;

/// The glyph grid owed for decodable bytes under a configuration: the
/// decoded frame, Lanczos3-resampled to the configured dimensions, mapped
/// pixel by pixel to ramp glyphs.
pub open spec fn converted_grid_spec(bytes: Seq<u8>, config: RenderConfig) -> Seq<Seq<char>>
    recommends
        decoded_of(bytes) is Some,
{
    let d = decoded_of(bytes)->Some_0;
    glyph_grid_spec(
        lanczos3_of(d.0, d.1, d.2, config.target_width as int, config.target_height as int),
        config.target_width as int,
        config.target_height as int,
        config.ramp@,
        config.contrast_centi as int,
        config.luma_policy,
    )
}

#[verifier::external_type_specification]
#[verifier::external_body]
pub struct ExImageError(image::ImageError);

/// Relies on `image::guess_format`, which reads only the crate's built-in
/// magic-byte table and never the format-detection hook registry, and on
/// `image::load_from_memory_with_format`, which for a built-in format
/// dispatches straight to the built-in decoder and never the decoding hook
/// registry; `DynamicImage::to_rgb8` / `ImageBuffer::into_raw` then hand the
/// frame back as row-major RGB bytes covering `width * height` pixels. On
/// this hook-free path the outcome depends on the bytes alone, so it is
/// named `decoded_of`: the call succeeds exactly when that is `Some`, and
/// then returns exactly the bytes and dimensions it holds.
#[verifier::external_body]
fn decode_rgb_bytes(bytes: &[u8]) -> (r: Result<PixelBuffer, image::ImageError>)
    ensures
        r is Ok <==> decoded_of(bytes@) is Some,
        r matches Ok(pb) ==> pb.wf()
            && decoded_of(bytes@) == Some((pb.data@, pb.width as int, pb.height as int)),
{
    let format = match image::guess_format(bytes) {
        Ok(format) => format,
        Err(e) => return Err(e),
    };
    match image::load_from_memory_with_format(bytes, format) {
        Ok(img) => {
            let rgb = img.to_rgb8();
            let width = rgb.width();
            let height = rgb.height();
            Ok(PixelBuffer { width, height, data: rgb.into_raw() })
        }
        Err(e) => Err(e),
    }
}

/// Relies on `image::imageops::resize` with `FilterType::Lanczos3`: the
/// result is an image of exactly the requested dimensions, a fixed function
/// of the source bytes and the four dimensions, here named `lanczos3_of`
/// (the kernel's `f32` arithmetic, `f32::sin` included, is read as one fixed
/// function, which any one toolchain's math library satisfies). The
/// `requires` keep the intermediate source-width by target-height float
/// buffer and the output buffer under the allocation ceiling, so the call
/// cannot panic.
#[verifier::external_body]
fn resample_lanczos3(pixels: &PixelBuffer, new_width: u32, new_height: u32) -> (r: PixelBuffer)
    requires
        pixels.wf(),
        resample_fits(pixels.width as int, new_height as int),
        3 * (new_width * new_height) <= usize::MAX / 2,
    ensures
        r.width == new_width,
        r.height == new_height,
        r.data@.len() == 3 * (new_width * new_height),
        r.data@ == lanczos3_of(
            pixels.data@,
            pixels.width as int,
            pixels.height as int,
            new_width as int,
            new_height as int,
        ),
{
    let source = image::RgbImage::from_raw(pixels.width, pixels.height, pixels.data.clone())
        .unwrap();
    let resized = image::imageops::resize(
        &source,
        new_width,
        new_height,
        image::imageops::FilterType::Lanczos3,
    );
    PixelBuffer { width: new_width, height: new_height, data: resized.into_raw() }
}

/// Decodes image bytes into a pixel buffer: succeeds exactly on decodable
/// bytes, returning the decoded frame `decoded_of` names; undecodable bytes
/// are reported as `SourceUndecodable`.
pub fn decode_image(bytes: &[u8]) -> (r: Result<PixelBuffer, RenderError>)
    ensures
        r is Ok <==> decoded_of(bytes@) is Some,
        r matches Ok(pb) ==> pb.wf()
            && decoded_of(bytes@) == Some((pb.data@, pb.width as int, pb.height as int)),
        r matches Err(e) ==> e == RenderError::SourceUndecodable,
{
    match decode_rgb_bytes(bytes) {
        Ok(pb) => Ok(pb),
        Err(_) => Err(RenderError::SourceUndecodable),
    }
}

/// Maps an already-resampled pixel buffer to glyphs: one character per
/// pixel, row-major, one grid line per pixel row.
pub fn map_pixels_to_glyphs(pixels: &PixelBuffer, config: &RenderConfig) -> (grid: CharacterGrid)
    requires
        config.wf(),
        pixels.wf(),
        pixels.width == config.target_width,
        pixels.height == config.target_height,
    ensures
        grid@ == glyph_grid_spec(
            pixels.data@,
            config.target_width as int,
            config.target_height as int,
            config.ramp@,
            config.contrast_centi as int,
            config.luma_policy,
        ),
        grid@.len() == config.target_height,
        forall|y: int| 0 <= y < grid@.len() ==> (#[trigger] grid@[y]).len() == config.target_width,
{
    let w = config.target_width;
    let h = config.target_height;
    let data_len: usize = pixels.data.len();
    let ghost gspec = glyph_grid_spec(
        pixels.data@,
        w as int,
        h as int,
        config.ramp@,
        config.contrast_centi as int,
        config.luma_policy,
    );
    let mut lines: Vec<Vec<char>> = Vec::new();
    let mut y: u32 = 0;
    while y < h
        invariant
            0 <= y <= h,
            config.wf(),
            pixels.wf(),
            pixels.data@.len() == data_len,
            pixels.width == w,
            pixels.height == h,
            w == config.target_width,
            h == config.target_height,
            lines@.len() == y,
            gspec == glyph_grid_spec(
                pixels.data@,
                w as int,
                h as int,
                config.ramp@,
                config.contrast_centi as int,
                config.luma_policy,
            ),
            forall|yy: int| 0 <= yy < y ==> (#[trigger] lines@[yy])@ == gspec[yy],
        decreases h - y,
    {
        let mut line: Vec<char> = Vec::new();
        let mut x: u32 = 0;
        while x < w
            invariant
                0 <= x <= w,
                0 <= y < h,
                config.wf(),
                pixels.wf(),
                pixels.data@.len() == data_len,
                pixels.width == w,
                pixels.height == h,
                w == config.target_width,
                h == config.target_height,
                line@.len() == x,
                gspec == glyph_grid_spec(
                    pixels.data@,
                    w as int,
                    h as int,
                    config.ramp@,
                    config.contrast_centi as int,
                    config.luma_policy,
                ),
                forall|xx: int| 0 <= xx < x ==> line@[xx] == glyph_spec(
                    pixels.data@,
                    w as int,
                    xx,
                    y as int,
                    config.ramp@,
                    config.contrast_centi as int,
                    config.luma_policy,
                ),
            decreases w - x,
        {
            proof {
                assert((y as int) * (w as int) + (x as int) <= (w as int) * (h as int) - 1)
                    by (nonlinear_arith)
                    requires 0 <= x < w && 0 <= y < h;
                assert(3 * ((y as int) * (w as int) + (x as int)) + 2 < 3 * ((w as int) * (h as int)));
                assert(3 * ((w as int) * (h as int)) <= data_len);
            }
            let base: usize = 3 * ((y as usize) * (w as usize) + (x as usize));
            let r = pixels.data[base];
            let g = pixels.data[base + 1];
            let b = pixels.data[base + 2];
            let luma = luminance(r, g, b, config.luma_policy);
            let shaped = enhance_contrast(luma, config.contrast_centi);
            let idx = ramp_index(shaped, config.ramp.len());
            line.push(config.ramp[idx]);
            x = x + 1;
        }
        proof {
            assert(line@ =~= gspec[y as int]);
        }
        lines.push(line);
        y = y + 1;
    }
    let grid = CharacterGrid::new(lines);
    proof {
        assert(grid@ =~~= gspec);
    }
    grid
}

/// Decides `resample_fits` for a source width and a target height.
pub fn resample_fits_check(src_width: u32, new_height: u32) -> (b: bool)
    ensures
        b == resample_fits(src_width as int, new_height as int),
{
    proof {
        assert((src_width as int) * (new_height as int) <= 0xffff_ffff * 0xffff_ffff)
            by (nonlinear_arith)
            requires 0 <= src_width <= 0xffff_ffff && 0 <= new_height <= 0xffff_ffff;
    }
    let product: u128 = (src_width as u128) * (new_height as u128);
    let need: u128 = 16 * product;
    need <= (usize::MAX / 2) as u128
}

/// Converts one decoded frame: resamples it to the configured dimensions
/// with a Lanczos3 filter, then maps every resampled pixel to a glyph.
pub fn map_to_glyphs(image: &PixelBuffer, config: &RenderConfig) -> (grid: CharacterGrid)
    requires
        config.wf(),
        image.wf(),
        resample_fits(image.width as int, config.target_height as int),
    ensures
        grid@ == glyph_grid_spec(
            lanczos3_of(
                image.data@,
                image.width as int,
                image.height as int,
                config.target_width as int,
                config.target_height as int,
            ),
            config.target_width as int,
            config.target_height as int,
            config.ramp@,
            config.contrast_centi as int,
            config.luma_policy,
        ),
        grid@.len() == config.target_height,
        forall|y: int| 0 <= y < grid@.len() ==> (#[trigger] grid@[y]).len() == config.target_width,
{
    let resampled = resample_lanczos3(image, config.target_width, config.target_height);
    map_pixels_to_glyphs(&resampled, config)
}

/// Converts frames to glyph grids under a fixed configuration.
pub struct AsciiConverter {
    pub config: RenderConfig,
}

impl AsciiConverter {
    /// A converter for a `width` by `height` character grid with the fine
    /// ramp, perceptual luminance, a 1.2 contrast factor, and the display
    /// ceilings of 60 columns by 40 lines.
    pub fn new(width: u32, height: u32) -> (c: AsciiConverter)
        requires
            3 * (width * height) <= usize::MAX / 2,
        ensures
            c.config.target_width == width,
            c.config.target_height == height,
            c.config.contrast_centi == 120,
            c.config.luma_policy == LumaPolicy::Perceptual,
            c.config.ramp@ == fine_ramp_spec(),
            c.config.display_line_width == 60,
            c.config.display_line_count == 40,
            c.config.wf(),
    {
        let ramp = fine_ramp();
        let config = RenderConfig::new(width, height, 120, LumaPolicy::Perceptual, ramp, 60, 40);
        AsciiConverter { config }
    }

    /// Decodes image bytes and converts them to a glyph grid: succeeds
    /// exactly on decodable bytes whose resampling working buffer fits the
    /// address space, returning precisely the grid `converted_grid_spec`
    /// names; undecodable bytes — and the rare decodable frame too wide to
    /// resample for the configured height — yield `SourceUndecodable` and
    /// never a panic or a silent blank grid.
    pub fn image_to_ascii(&self, bytes: &[u8]) -> (r: Result<CharacterGrid, RenderError>)
        requires
            self.config.wf(),
        ensures
            r is Ok <==> (decoded_of(bytes@) matches Some(d)
                && resample_fits(d.1, self.config.target_height as int)),
            r matches Ok(grid) ==> {
                &&& grid@ == converted_grid_spec(bytes@, self.config)
                &&& grid@.len() == self.config.target_height
                &&& forall|y: int| 0 <= y < grid@.len()
                    ==> (#[trigger] grid@[y]).len() == self.config.target_width
            },
            r matches Err(e) ==> e == RenderError::SourceUndecodable,
    {
        match decode_image(bytes) {
            Ok(pb) => {
                proof {
                    let d = decoded_of(bytes@)->Some_0;
                    assert(d.0 == pb.data@ && d.1 == pb.width as int && d.2 == pb.height as int);
                }
                if resample_fits_check(pb.width, self.config.target_height) {
                    Ok(map_to_glyphs(&pb, &self.config))
                } else {
                    Err(RenderError::SourceUndecodable)
                }
            }
            Err(e) => Err(e),
        }
    }
}

} // verus!
