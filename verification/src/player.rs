//! The playback core: a converter with the display-sized defaults, plus the
//! per-frame planning step that the playback loop drives.

use vstd::prelude::*;
use crate::config::{LumaPolicy, RenderError};
use crate::glyph::fine_ramp_spec;
use crate::grid::CharacterGrid;
use crate::mapper::{converted_grid_spec, decoded_of, resample_fits, AsciiConverter};
use crate::renderer::{line_kept, prev_view, render, truncate_spec, WriteInstruction};

verus! {

/// Drives frame playback on the display: converts each frame with the
/// display-sized defaults and plans the minimal writes against the previous
/// frame. Performing the writes, and keeping the previous grid between
/// calls, belong to the caller's loop.
pub struct KindlePlayer {
    pub converter: AsciiConverter,
}

impl KindlePlayer {
    /// A player with the display-optimized 50 by 40 character grid.
    pub fn new() -> (p: KindlePlayer)
        ensures
            p.converter.config.target_width == 50,
            p.converter.config.target_height == 40,
            p.converter.config.contrast_centi == 120,
            p.converter.config.luma_policy == LumaPolicy::Perceptual,
            p.converter.config.ramp@ == fine_ramp_spec(),
            p.converter.config.display_line_width == 60,
            p.converter.config.display_line_count == 40,
            p.converter.config.wf(),
    {
        let converter = AsciiConverter::new(50, 40);
        KindlePlayer { converter }
    }

    /// Converts one frame's bytes to a glyph grid under the player's
    /// configuration: succeeds exactly on decodable bytes whose resampling
    /// working buffer fits the address space, returning precisely the grid
    /// `converted_grid_spec` names.
    pub fn convert_frame(&self, bytes: &[u8]) -> (r: Result<CharacterGrid, RenderError>)
        requires
            self.converter.config.wf(),
        ensures
            r is Ok <==> (decoded_of(bytes@) matches Some(d)
                && resample_fits(d.1, self.converter.config.target_height as int)),
            r matches Ok(grid) ==> {
                &&& grid@ == converted_grid_spec(bytes@, self.converter.config)
                &&& grid@.len() == self.converter.config.target_height
                &&& forall|y: int| 0 <= y < grid@.len()
                    ==> (#[trigger] grid@[y]).len() == self.converter.config.target_width
            },
            r matches Err(e) ==> e == RenderError::SourceUndecodable,
    {
        self.converter.image_to_ascii(bytes)
    }

    /// Plans the writes for one frame against the previous one: exactly the
    /// rows that `line_kept` selects, in strictly increasing row order, each
    /// carrying the row's truncated text; an unchanged frame plans nothing.
    pub fn display_plan(
        &self,
        current: &CharacterGrid,
        previous: Option<&CharacterGrid>,
    ) -> (out: Vec<WriteInstruction>)
        ensures
            forall|i: int| 0 <= i < out@.len() ==> line_kept(
                current@,
                prev_view(previous),
                (#[trigger] out@[i]).row as int,
                self.converter.config.display_line_width as int,
                self.converter.config.display_line_count as int,
            ),
            forall|i: int| 0 <= i < out@.len() ==> (#[trigger] out@[i]).text@ == truncate_spec(
                current@[out@[i].row as int],
                self.converter.config.display_line_width as int,
            ),
            forall|r: int| #[trigger] line_kept(
                current@,
                prev_view(previous),
                r,
                self.converter.config.display_line_width as int,
                self.converter.config.display_line_count as int,
            ) ==> exists|i: int| 0 <= i < out@.len() && (#[trigger] out@[i]).row == r,
            forall|i: int, j: int| 0 <= i < j < out@.len()
                ==> (#[trigger] out@[i]).row < (#[trigger] out@[j]).row,
            prev_view(previous) matches Some(p) && p == current@ ==> out@.len() == 0,
    {
        render(current, previous, &self.converter.config)
    }
}

} // verus!
