use glyphcast::config::{LumaPolicy, RenderConfig};
use glyphcast::glyph::coarse_ramp;
use glyphcast::grid::CharacterGrid;
use glyphcast::player::KindlePlayer;
use glyphcast::renderer::{render, render_chunked};

fn chars(s: &str) -> Vec<char> {
    s.chars().collect()
}

fn grid(lines: &[&str]) -> CharacterGrid {
    CharacterGrid::new(lines.iter().map(|s| chars(s)).collect())
}

fn display_config(width: usize, count: usize) -> RenderConfig {
    RenderConfig::new(1, 1, 100, LumaPolicy::SimpleAverage, coarse_ramp(), width, count)
}

#[test]
fn changed_line_is_the_only_write() {
    let previous = grid(&["AAA", "BBB"]);
    let current = grid(&["AAA", "CCC"]);
    let out = render(&current, Some(&previous), &display_config(10, 2));
    assert_eq!(out.len(), 1);
    assert_eq!(out[0].row, 1);
    assert_eq!(out[0].text, chars("CCC"));
}

#[test]
fn identical_frames_plan_no_write() {
    let previous = grid(&["AAA", "BBB", "  ", "ZZ"]);
    let current = grid(&["AAA", "BBB", "  ", "ZZ"]);
    let out = render(&current, Some(&previous), &display_config(10, 4));
    assert!(out.is_empty());
}

#[test]
fn no_previous_emits_every_nonblank_line() {
    let current = grid(&["AA", "   ", "BB", "\t ", "CC"]);
    let out = render(&current, None, &display_config(10, 10));
    assert_eq!(out.len(), 3);
    assert_eq!((out[0].row, out[0].text.clone()), (0, chars("AA")));
    assert_eq!((out[1].row, out[1].text.clone()), (2, chars("BB")));
    assert_eq!((out[2].row, out[2].text.clone()), (4, chars("CC")));
}

#[test]
fn rows_past_the_line_ceiling_are_dropped() {
    let lines: Vec<String> = (0..30).map(|i| format!("line{}", i)).collect();
    let refs: Vec<&str> = lines.iter().map(|s| s.as_str()).collect();
    let current = grid(&refs);
    let out = render(&current, None, &display_config(10, 24));
    assert_eq!(out.len(), 24);
    for (i, inst) in out.iter().enumerate() {
        assert_eq!(inst.row, i);
    }
    assert!(out.iter().all(|inst| inst.row < 24));
}

#[test]
fn long_lines_are_cut_to_the_column_ceiling() {
    let long: String = "A".repeat(80);
    let current = grid(&[long.as_str()]);
    let out = render(&current, None, &display_config(60, 10));
    assert_eq!(out.len(), 1);
    assert_eq!(out[0].text.len(), 60);
    assert_eq!(out[0].text, chars(&"A".repeat(60)));
}

#[test]
fn rerendering_a_truncated_line_is_identical() {
    let long: String = "B".repeat(75);
    let first = render(&grid(&[long.as_str()]), None, &display_config(60, 10));
    let cut: String = first[0].text.iter().collect();
    let second = render(&grid(&[cut.as_str()]), None, &display_config(60, 10));
    assert_eq!(second.len(), 1);
    assert_eq!(second[0].row, first[0].row);
    assert_eq!(second[0].text, first[0].text);
}

#[test]
fn planned_rows_are_strictly_increasing() {
    let current = grid(&["A", "B", "", "C", "D", "E"]);
    let previous = grid(&["A", "X", "", "C", "Y", "E"]);
    let out = render(&current, Some(&previous), &display_config(5, 6));
    assert_eq!(out.len(), 2);
    assert_eq!(out[0].row, 1);
    assert_eq!(out[1].row, 4);
    for pair in out.windows(2) {
        assert!(pair[0].row < pair[1].row);
    }
}

#[test]
fn shorter_previous_frame_only_skips_matching_rows() {
    let previous = grid(&["AA"]);
    let current = grid(&["AA", "BB"]);
    let out = render(&current, Some(&previous), &display_config(10, 10));
    assert_eq!(out.len(), 1);
    assert_eq!(out[0].row, 1);
    assert_eq!(out[0].text, chars("BB"));
}

#[test]
fn unicode_whitespace_lines_are_blank() {
    let current = grid(&["\u{A0}\u{2003}", "XX"]);
    let out = render(&current, None, &display_config(10, 10));
    assert_eq!(out.len(), 1);
    assert_eq!(out[0].row, 1);
    assert_eq!(out[0].text, chars("XX"));
}

#[test]
fn longer_previous_frame_still_skips_matching_rows() {
    let previous = grid(&["AA", "BB", "CC"]);
    let current = grid(&["AA", "XX"]);
    let out = render(&current, Some(&previous), &display_config(10, 10));
    assert_eq!(out.len(), 1);
    assert_eq!(out[0].row, 1);
    assert_eq!(out[0].text, chars("XX"));
}

#[test]
fn lines_are_compared_before_truncation() {
    let previous = grid(&["AAAAX"]);
    let current = grid(&["AAAAY"]);
    let out = render(&current, Some(&previous), &display_config(4, 10));
    assert_eq!(out.len(), 1);
    assert_eq!(out[0].row, 0);
    assert_eq!(out[0].text, chars("AAAA"));
}

#[test]
fn chunked_layout_stacks_bands() {
    let current = grid(&["ABCDE", "FGHIJ"]);
    let out = render_chunked(&current, &display_config(2, 40));
    let got: Vec<(usize, String)> = out
        .iter()
        .map(|inst| (inst.row, inst.text.iter().collect()))
        .collect();
    let want = vec![
        (0, "AB".to_string()),
        (1, "FG".to_string()),
        (2, "CD".to_string()),
        (3, "HI".to_string()),
        (4, "E".to_string()),
        (5, "J".to_string()),
    ];
    assert_eq!(got, want);
}

#[test]
fn chunked_layout_respects_the_line_ceiling_and_blanks() {
    let current = grid(&["AB  E", "FG  J"]);
    let out = render_chunked(&current, &display_config(2, 4));
    let got: Vec<(usize, String)> = out
        .iter()
        .map(|inst| (inst.row, inst.text.iter().collect()))
        .collect();
    let want = vec![(0, "AB".to_string()), (1, "FG".to_string())];
    assert_eq!(got, want);
}

#[test]
fn player_plans_like_the_renderer() {
    let player = KindlePlayer::new();
    let previous = grid(&["AAA", "BBB"]);
    let current = grid(&["AAA", "CCC"]);
    let out = player.display_plan(&current, Some(&previous));
    assert_eq!(out.len(), 1);
    assert_eq!(out[0].row, 1);
    assert_eq!(out[0].text, chars("CCC"));
}

#[test]
fn player_plans_nothing_for_a_repeated_frame() {
    let player = KindlePlayer::new();
    let current = grid(&["XYZ"]);
    let out = player.display_plan(&current, Some(&grid(&["XYZ"])));
    assert!(out.is_empty());
}
