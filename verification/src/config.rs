//! Shared configuration and error types for the glyph pipeline.

use vstd::prelude::*;

verus! {

/// How a single RGB pixel is collapsed to one luminance value in 0..=255.
#[derive(Clone, Copy, PartialEq, Eq, Structural, Debug)]
pub enum LumaPolicy {
    /// Unweighted average of the three channels.
    SimpleAverage,
    /// Perceptual weighting 0.299 / 0.587 / 0.114 for red / green / blue,
    /// carried out exactly in thousandths.
    Perceptual,
}

/// Why a frame could not be turned into a character grid, or written out.
#[derive(Clone, Copy, PartialEq, Eq, Structural, Debug)]
pub enum RenderError {
    /// The source resource could not be located or opened.
    SourceUnavailable,
    /// The source bytes exist but are not a decodable image.
    SourceUndecodable,
    /// The display collaborator reported a failed hardware write.
    DisplayWriteFailed,
}

/// Fixed per-sequence settings: the character grid dimensions, the contrast
/// factor (in hundredths, so 100 means no enhancement), the glyph ramp from
/// darkest to lightest, the luminance policy, and the hardware ceilings on
/// line width and line count.
pub struct RenderConfig {
    pub target_width: u32,
    pub target_height: u32,
    /// Contrast factor in hundredths: 120 stands for a factor of 1.2.
    pub contrast_centi: u32,
    pub luma_policy: LumaPolicy,
    /// Glyph ramp, darkest first; at least one entry.
    pub ramp: Vec<char>,
    /// Hardware column ceiling; lines longer than this are truncated.
    pub display_line_width: usize,
    /// Hardware line ceiling; rows at or past it are never written.
    pub display_line_count: usize,
}

impl RenderConfig {
    /// The constraints every usable configuration meets: a non-empty ramp,
    /// a positive column ceiling, and products that fit the machine word.
    pub open spec fn wf(&self) -> bool {
        &&& self.ramp@.len() >= 1
        &&& 255 * (self.ramp@.len() - 1) <= usize::MAX
        &&& self.display_line_width >= 1
        &&& 3 * (self.target_width * self.target_height) <= usize::MAX / 2
    }

    /// Builds a configuration from its parts.
    pub fn new(
        target_width: u32,
        target_height: u32,
        contrast_centi: u32,
        luma_policy: LumaPolicy,
        ramp: Vec<char>,
        display_line_width: usize,
        display_line_count: usize,
    ) -> (cfg: RenderConfig)
        requires
            ramp@.len() >= 1,
            255 * (ramp@.len() - 1) <= usize::MAX,
            display_line_width >= 1,
            contrast_centi >= 1,
            3 * (target_width * target_height) <= usize::MAX / 2,
        ensures
            cfg.target_width == target_width,
            cfg.target_height == target_height,
            cfg.contrast_centi == contrast_centi,
            cfg.luma_policy == luma_policy,
            cfg.ramp@ == ramp@,
            cfg.display_line_width == display_line_width,
            cfg.display_line_count == display_line_count,
            cfg.wf(),
    {
        RenderConfig {
            target_width,
            target_height,
            contrast_centi,
            luma_policy,
            ramp,
            display_line_width,
            display_line_count,
        }
    }
}

} // verus!
