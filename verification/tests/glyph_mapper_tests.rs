use glyphcast::config::{LumaPolicy, RenderConfig, RenderError};
use glyphcast::glyph::{coarse_ramp, enhance_contrast, luminance, ramp_index};
use glyphcast::mapper::{map_pixels_to_glyphs, map_to_glyphs, AsciiConverter, PixelBuffer};

fn gray_config(width: u32, height: u32) -> RenderConfig {
    RenderConfig::new(width, height, 100, LumaPolicy::SimpleAverage, coarse_ramp(), 60, 40)
}

#[test]
fn ramp_endpoints_and_midpoint() {
    assert_eq!(ramp_index(0, 8), 0);
    assert_eq!(ramp_index(255, 8), 7);
    assert_eq!(ramp_index(128, 8), 3);
    let ramp = coarse_ramp();
    assert_eq!(ramp[ramp_index(0, 8)], ' ');
    assert_eq!(ramp[ramp_index(128, 8)], '-');
    assert_eq!(ramp[ramp_index(255, 8)], '@');
}

#[test]
fn ramp_index_stays_in_bounds() {
    for len in [2usize, 3, 8, 74] {
        for lum in 0..=255u8 {
            let idx = ramp_index(lum, len);
            assert!(idx < len);
        }
        assert_eq!(ramp_index(0, len), 0);
        assert_eq!(ramp_index(255, len), len - 1);
    }
}

#[test]
fn one_entry_ramp_is_constant() {
    for lum in [0u8, 77, 255] {
        assert_eq!(ramp_index(lum, 1), 0);
    }
}

#[test]
fn contrast_factor_one_changes_nothing() {
    for lum in [0u8, 1, 77, 128, 254, 255] {
        assert_eq!(enhance_contrast(lum, 100), lum);
    }
}

#[test]
fn contrast_expands_midtones_and_clamps() {
    assert_eq!(enhance_contrast(50, 200), 0);
    assert_eq!(enhance_contrast(200, 200), 255);
    assert_eq!(enhance_contrast(128, 200), 128);
    assert_eq!(enhance_contrast(100, 120), 94);
}

#[test]
fn luminance_policies() {
    assert_eq!(luminance(255, 0, 0, LumaPolicy::SimpleAverage), 85);
    assert_eq!(luminance(255, 0, 0, LumaPolicy::Perceptual), 76);
    assert_eq!(luminance(0, 255, 0, LumaPolicy::Perceptual), 149);
    assert_eq!(luminance(0, 0, 255, LumaPolicy::Perceptual), 29);
    assert_eq!(luminance(128, 128, 128, LumaPolicy::Perceptual), 128);
}

#[test]
fn grid_shape_matches_config() {
    let data = vec![0u8; 3 * 3 * 2];
    let pixels = PixelBuffer::new(3, 2, data);
    let grid = map_pixels_to_glyphs(&pixels, &gray_config(3, 2));
    assert_eq!(grid.lines.len(), 2);
    for line in &grid.lines {
        assert_eq!(line.len(), 3);
    }
}

#[test]
fn gray_levels_map_to_expected_glyphs() {
    let data = vec![0, 0, 0, 128, 128, 128, 255, 255, 255];
    let pixels = PixelBuffer::new(3, 1, data);
    let grid = map_pixels_to_glyphs(&pixels, &gray_config(3, 1));
    assert_eq!(grid.lines[0], vec![' ', '-', '@']);
}

#[test]
fn resampling_blends_rather_than_copies() {
    let data = vec![0, 0, 0, 255, 255, 255];
    let pixels = PixelBuffer::new(2, 1, data);
    let grid = map_to_glyphs(&pixels, &gray_config(1, 1));
    assert_eq!(grid.lines.len(), 1);
    assert_eq!(grid.lines[0].len(), 1);
    let glyph = grid.lines[0][0];
    assert!(glyph != ' ' && glyph != '@', "a 1x1 downsample of black and white must land mid-ramp");
}

#[test]
fn decoded_png_converts_to_grid() {
    let mut img = image::RgbImage::new(2, 1);
    img.put_pixel(0, 0, image::Rgb([0, 0, 0]));
    img.put_pixel(1, 0, image::Rgb([255, 255, 255]));
    let mut bytes: Vec<u8> = Vec::new();
    img.write_to(&mut std::io::Cursor::new(&mut bytes), image::ImageFormat::Png)
        .unwrap();
    let converter = AsciiConverter::new(2, 1);
    let grid = converter.image_to_ascii(&bytes).unwrap();
    assert_eq!(grid.lines.len(), 1);
    assert_eq!(grid.lines[0].len(), 2);
}

#[test]
fn conversion_is_deterministic() {
    let mut img = image::RgbImage::new(3, 3);
    for x in 0..3 {
        for y in 0..3 {
            let v = (40 * (x + 3 * y)) as u8;
            img.put_pixel(x, y, image::Rgb([v, v, v]));
        }
    }
    let mut bytes: Vec<u8> = Vec::new();
    img.write_to(&mut std::io::Cursor::new(&mut bytes), image::ImageFormat::Png)
        .unwrap();
    let converter = AsciiConverter::new(2, 2);
    let first = converter.image_to_ascii(&bytes).unwrap();
    let second = converter.image_to_ascii(&bytes).unwrap();
    assert_eq!(first.lines, second.lines);
}

#[test]
fn oversized_resample_working_buffers_are_rejected() {
    assert!(glyphcast::mapper::resample_fits_check(50, 40));
    assert!(glyphcast::mapper::resample_fits_check(170_000_000, 40));
    assert!(!glyphcast::mapper::resample_fits_check(1_000_000_000, 600_000_000));
    assert!(!glyphcast::mapper::resample_fits_check(u32::MAX, u32::MAX));
}

#[test]
fn undecodable_bytes_report_the_right_error() {
    let converter = AsciiConverter::new(4, 4);
    let garbage = vec![1u8, 2, 3, 4, 5, 6, 7, 8];
    assert!(matches!(converter.image_to_ascii(&garbage), Err(RenderError::SourceUndecodable)));
    let empty: Vec<u8> = Vec::new();
    assert!(matches!(converter.image_to_ascii(&empty), Err(RenderError::SourceUndecodable)));
}

#[test]
fn converter_defaults_match_the_display() {
    let converter = AsciiConverter::new(50, 40);
    assert_eq!(converter.config.target_width, 50);
    assert_eq!(converter.config.target_height, 40);
    assert_eq!(converter.config.contrast_centi, 120);
    assert_eq!(converter.config.ramp.len(), 74);
    assert_eq!(converter.config.ramp[0], '.');
    assert_eq!(converter.config.ramp[73], '@');
    assert_eq!(converter.config.display_line_width, 60);
    assert_eq!(converter.config.display_line_count, 40);
}
