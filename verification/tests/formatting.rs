use jynx::pipeline::JynxApp;
use jynx::pipeline::TextAlign;

fn app_with_align(align: &str) -> JynxApp {
    JynxApp::with_theme_and_options(None, None, None, align.to_string(), false)
}

#[test]
fn visible_length_ignores_escape_sequences() {
    assert_eq!(JynxApp::get_visible_length("hello"), 5);
    assert_eq!(JynxApp::get_visible_length("\x1b[1mabc\x1b[0m"), 3);
    assert_eq!(JynxApp::get_visible_length(""), 0);
    assert_eq!(JynxApp::get_visible_length("\x1b[38;5;9m\x1b[0m"), 0);
}

#[test]
fn strip_ansi_codes_removes_sgr_sequences() {
    assert_eq!(JynxApp::strip_ansi_codes("\x1b[1mabc\x1b[0m"), "abc");
    assert_eq!(JynxApp::strip_ansi_codes("plain"), "plain");
    // A malformed escape (no terminating `m`) stays visible.
    assert_eq!(JynxApp::strip_ansi_codes("\x1b[zx"), "\x1b[zx");
}

#[test]
fn width_formatting_of_styled_string() {
    // A styled string with visible length five, target width ten.
    let styled = "\x1b[38;5;9mhello\x1b[0m";
    let left = app_with_align("left").format_line_width(styled, 10);
    assert_eq!(left, format!("{}{}", styled, "     "));
    let right = app_with_align("right").format_line_width(styled, 10);
    assert_eq!(right, format!("{}{}", "     ", styled));
    let center = app_with_align("center").format_line_width(styled, 10);
    assert_eq!(center, format!("{}{}{}", "  ", styled, "   "));
}

#[test]
fn truncation_appends_ellipsis_in_last_three_slots() {
    // Visible length twenty, width eight: an eight-character result
    // ending in an ellipsis.
    let long = "abcdefghijklmnopqrst";
    let truncated = JynxApp::truncate_to_width(long, 8);
    assert_eq!(truncated, "abcde...");
    assert_eq!(JynxApp::get_visible_length(&truncated), 8);
}

#[test]
fn truncation_keeps_escape_sequences() {
    let styled = "\x1b[1mabcdefghij\x1b[0m";
    let truncated = JynxApp::truncate_to_width(styled, 5);
    assert_eq!(truncated, "\x1b[1mab...");
}

#[test]
fn truncation_small_widths() {
    assert_eq!(JynxApp::truncate_to_width("abcdef", 0), "");
    // Width three or less: cut without an ellipsis.
    assert_eq!(JynxApp::truncate_to_width("abcdef", 3), "abc");
    // Nothing is cut: the line passes through.
    assert_eq!(JynxApp::truncate_to_width("abc", 3), "abc");
}

#[test]
fn formatting_at_exact_width_changes_nothing() {
    let app = app_with_align("left");
    assert_eq!(app.format_line_width("12345", 5), "12345");
}

#[test]
fn align_parsing() {
    assert_eq!(TextAlign::from_str("center"), TextAlign::Center);
    assert_eq!(TextAlign::from_str("CENTRE"), TextAlign::Center);
    assert_eq!(TextAlign::from_str("Right"), TextAlign::Right);
    assert_eq!(TextAlign::from_str("left"), TextAlign::Left);
    assert_eq!(TextAlign::from_str("nonsense"), TextAlign::Left);
}
