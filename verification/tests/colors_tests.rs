use launcher::colors::parse_color_str;
use launcher::worker::{
    line_downloading, line_final, line_update_failed, line_updated, line_updating, RunStatus,
};

#[test]
fn markup_one_colored_segment() {
    let segments = parse_color_str("$[255,0,0]Error$[reset]");
    assert_eq!(segments.len(), 1);
    assert_eq!(segments[0].0, "Error");
    assert_eq!(segments[0].1, Some((255, 0, 0)));
}

#[test]
fn markup_plain_text_is_one_uncolored_segment() {
    let segments = parse_color_str("just some text");
    assert_eq!(segments.len(), 1);
    assert_eq!(segments[0].0, "just some text");
    assert_eq!(segments[0].1, None);
}

#[test]
fn markup_unterminated_marker_is_literal() {
    let segments = parse_color_str("tail$[12,34");
    assert_eq!(segments.len(), 1);
    assert_eq!(segments[0].0, "tail$[12,34");
    assert_eq!(segments[0].1, None);
}

#[test]
fn markup_color_changes_mid_line() {
    let segments = parse_color_str("plain$[35,180,75]green$[reset]plain again");
    assert_eq!(segments.len(), 3);
    assert_eq!(segments[0], ("plain".to_string(), None));
    assert_eq!(segments[1], ("green".to_string(), Some((35, 180, 75))));
    assert_eq!(segments[2], ("plain again".to_string(), None));
}

#[test]
fn markup_bad_directive_keeps_current_color() {
    // Not three parts, and an overflowing component: both leave the colour
    // in force untouched, though the directive itself is consumed.
    let segments = parse_color_str("$[1,2]a$[300,0,0]b$[nonsense]c");
    assert_eq!(segments.len(), 3);
    assert_eq!(segments[0], ("a".to_string(), None));
    assert_eq!(segments[1], ("b".to_string(), None));
    assert_eq!(segments[2], ("c".to_string(), None));
}

#[test]
fn markup_components_may_carry_blanks_and_plus() {
    let segments = parse_color_str("$[ 12,\t34 ,+56]x");
    assert_eq!(segments.len(), 1);
    assert_eq!(segments[0], ("x".to_string(), Some((12, 34, 56))));
}

#[test]
fn markup_reset_without_prior_color() {
    let segments = parse_color_str("$[reset]back");
    assert_eq!(segments.len(), 1);
    assert_eq!(segments[0], ("back".to_string(), None));
}

#[test]
fn status_lines_carry_their_markup() {
    let line = line_updating("CoD4x game");
    assert_eq!(line, "$[50,50,255]Updating CoD4x game...");
    let segments = parse_color_str(line.as_str());
    assert_eq!(segments.len(), 1);
    assert_eq!(segments[0], ("Updating CoD4x game...".to_string(), Some((50, 50, 255))));
}

#[test]
fn worker_lines_match_their_templates() {
    assert_eq!(line_downloading("CoD4x DLL"), "Downloading CoD4x DLL...");
    assert_eq!(
        line_updated("CoD4x game"),
        "$[35,180,75]Successfully updated$[reset] CoD4x game\n"
    );
    assert_eq!(
        line_update_failed("CoD4x game", "no such asset"),
        "$[255,50,50]Failed to update CoD4x game: no such asset"
    );
}

#[test]
fn final_lines_distinguish_aborted_from_failed() {
    let aborted = line_final(RunStatus::Aborted);
    let failed = line_final(RunStatus::HadErrors);
    let ok = line_final(RunStatus::AllOk);
    assert_ne!(aborted, failed);
    assert_eq!(aborted, "$[255,130,40]Update aborted");
    assert_eq!(failed, "$[255,50,50]There were some errors during updating");
    assert_eq!(ok, "$[35,180,75]Update successful");
}
