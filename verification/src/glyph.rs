//! Luminance, contrast shaping and ramp-index selection: the arithmetic that
//! turns one pixel into one glyph.

use vstd::prelude::*;
use crate::config::LumaPolicy;

verus! {

/// Luminance of an RGB triple under the chosen policy, in 0..=255.
pub open spec fn luma_spec(r: u8, g: u8, b: u8, policy: LumaPolicy) -> int {
    match policy {
        LumaPolicy::SimpleAverage => (r + g + b) / 3,
        LumaPolicy::Perceptual => (299 * r + 587 * g + 114 * b) / 1000,
    }
}

/// Contrast-shaped luminance: the value `((l/255 - 1/2) * c + 1/2) * 255`,
/// clamped to 0..=255 and truncated, computed exactly over integers with the
/// contrast factor `c` given in hundredths.
pub open spec fn enhance_spec(luma: int, contrast_centi: int) -> int {
    let scaled = (2 * luma - 255) * contrast_centi + 25500;
    if scaled <= 0 {
        0
    } else if scaled / 200 >= 255 {
        255
    } else {
        scaled / 200
    }
}

/// Ramp slot for a luminance value: integer-truncating linear interpolation
/// across the ramp, clamped to the last slot; a one-entry ramp always selects
/// slot zero.
pub open spec fn ramp_index_spec(luma: int, ramp_len: int) -> int {
    if ramp_len <= 1 {
        0
    } else if luma * (ramp_len - 1) / 255 >= ramp_len - 1 {
        ramp_len - 1
    } else {
        luma * (ramp_len - 1) / 255
    }
}

/// Ramp coverage: every luminance in 0..=255 lands inside the ramp, zero on
/// the darkest glyph and 255 on the lightest.
pub proof fn lemma_ramp_coverage(luma: int, ramp_len: int)
    requires
        0 <= luma <= 255,
        ramp_len >= 2,
    ensures
        0 <= ramp_index_spec(luma, ramp_len) <= ramp_len - 1,
        luma == 0 ==> ramp_index_spec(luma, ramp_len) == 0,
        luma == 255 ==> ramp_index_spec(luma, ramp_len) == ramp_len - 1,
{
    assert(luma * (ramp_len - 1) >= 0) by (nonlinear_arith)
        requires luma >= 0 && ramp_len >= 2;
    assert(luma * (ramp_len - 1) / 255 >= 0) by (nonlinear_arith)
        requires luma * (ramp_len - 1) >= 0;
    if luma == 255 {
        assert(255 * (ramp_len - 1) / 255 == ramp_len - 1) by (nonlinear_arith)
            requires ramp_len >= 2;
    }
}

/// Computes `luma_spec` for one pixel.
pub fn luminance(r: u8, g: u8, b: u8, policy: LumaPolicy) -> (l: u8)
    ensures
        l == luma_spec(r, g, b, policy),
        0 <= l <= 255,
{
    match policy {
        LumaPolicy::SimpleAverage => {
            let sum: u32 = r as u32 + g as u32 + b as u32;
            (sum / 3) as u8
        }
        LumaPolicy::Perceptual => {
            let sum: u32 = 299 * (r as u32) + 587 * (g as u32) + 114 * (b as u32);
            proof {
                assert(sum / 1000 <= 255) by (nonlinear_arith)
                    requires sum <= 255000;
            }
            (sum / 1000) as u8
        }
    }
}

/// Computes `enhance_spec` for one luminance value.
pub fn enhance_contrast(luma: u8, contrast_centi: u32) -> (e: u8)
    ensures
        e == enhance_spec(luma as int, contrast_centi as int),
{
    proof {
        let d = 2 * (luma as int) - 255;
        let c = contrast_centi as int;
        assert(-255 * 0xffff_ffffi64 <= d * c <= 255 * 0xffff_ffffi64) by (nonlinear_arith)
            requires -255 <= d <= 255 && 0 <= c <= 0xffff_ffff;
    }
    let scaled: i64 = (2 * (luma as i64) - 255) * (contrast_centi as i64) + 25500;
    if scaled <= 0 {
        0
    } else if scaled / 200 >= 255 {
        255
    } else {
        (scaled / 200) as u8
    }
}

/// Computes `ramp_index_spec`; the result always indexes into a ramp of
/// length `ramp_len`.
pub fn ramp_index(luma: u8, ramp_len: usize) -> (idx: usize)
    requires
        ramp_len >= 1,
        255 * (ramp_len - 1) <= usize::MAX,
    ensures
        idx == ramp_index_spec(luma as int, ramp_len as int),
        idx < ramp_len,
{
    if ramp_len <= 1 {
        0
    } else {
        proof {
            assert((luma as int) * (ramp_len - 1) <= 255 * (ramp_len - 1)) by (nonlinear_arith)
                requires luma <= 255 && ramp_len >= 1;
            assert((luma as int) * (ramp_len - 1) >= 0) by (nonlinear_arith)
                requires luma >= 0 && ramp_len >= 1;
        }
        let raw: usize = (luma as usize) * (ramp_len - 1) / 255;
        if raw >= ramp_len - 1 {
            ramp_len - 1
        } else {
            raw
        }
    }
}

/// The coarse eight-glyph ramp, darkest to lightest.
pub open spec fn coarse_ramp_spec() -> Seq<char> {
    seq![' ', '.', ':', '-', '=', '+', '*', '@']
}

/// Builds the coarse eight-glyph ramp.
pub fn coarse_ramp() -> (ramp: Vec<char>)
    ensures
        ramp@ == coarse_ramp_spec(),
        ramp@.len() == 8,
{
    let ramp: Vec<char> = vec![' ', '.', ':', '-', '=', '+', '*', '@'];
    proof {
        assert(ramp@ =~= coarse_ramp_spec());
    }
    ramp
}

/// The fine ramp of 74 display-safe glyphs, darkest to lightest.
pub open spec fn fine_ramp_spec() -> Seq<char> {
    seq![
        '.', ',', '-', '_', ':', '=', '+', 'i', 'l', '1',
        't', 'f', 'j', 'r', 'c', '*', '?', 'v', 'n', 'u',
        'e', 'o', 'a', 'y', 'x', 'z', 's', '7', '3', '2',
        '5', 'L', 'T', 'J', 'F', 'C', 'I', 'Y', 'Z', 'E',
        'S', 'P', '6', '9', '4', 'h', 'k', 'd', 'q', 'w',
        '[', ']', 'V', 'p', 'G', 'b', 'A', 'K', 'X', 'H',
        'U', '8', '0', 'O', 'R', 'D', 'B', 'g', 'm', 'M',
        'N', 'W', 'Q', '@',
    ]
}

/// Builds the fine ramp.
pub fn fine_ramp() -> (ramp: Vec<char>)
    ensures
        ramp@ == fine_ramp_spec(),
        ramp@.len() == 74,
{
    let ramp: Vec<char> = vec![
        '.', ',', '-', '_', ':', '=', '+', 'i', 'l', '1',
        't', 'f', 'j', 'r', 'c', '*', '?', 'v', 'n', 'u',
        'e', 'o', 'a', 'y', 'x', 'z', 's', '7', '3', '2',
        '5', 'L', 'T', 'J', 'F', 'C', 'I', 'Y', 'Z', 'E',
        'S', 'P', '6', '9', '4', 'h', 'k', 'd', 'q', 'w',
        '[', ']', 'V', 'p', 'G', 'b', 'A', 'K', 'X', 'H',
        'U', '8', '0', 'O', 'R', 'D', 'B', 'g', 'm', 'M',
        'N', 'W', 'Q', '@',
    ];
    proof {
        assert(ramp@ =~= fine_ramp_spec());
    }
    ramp
}

} // verus!
