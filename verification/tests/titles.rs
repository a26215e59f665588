use twitch_opendeck::auth_handler::{image_data, normalize_title, optional_text, restored_title, title_plan, TitlePlan};
use twitch_opendeck::settings::BUTTON_LABEL_MAX;

fn std_label(raw: &str) -> String {
    raw.lines()
        .take(2)
        .map(|line| line.chars().take(BUTTON_LABEL_MAX).collect::<String>())
        .collect::<Vec<_>>()
        .join("\n")
}

#[test]
fn label_keeps_short_titles() {
    assert_eq!(normalize_title(""), "");
    assert_eq!(normalize_title("Clear"), "Clear");
    assert_eq!(normalize_title("Slow\nMode"), "Slow\nMode");
}

#[test]
fn label_cuts_lines_and_drops_the_third() {
    assert_eq!(normalize_title("abcdefghijklmnop"), "abcdefghij");
    assert_eq!(normalize_title("first line is long\nsecond line too\nthird"), "first line\nsecond lin");
    assert_eq!(normalize_title("a\r\nb\r\nc"), "a\nb");
    assert_eq!(normalize_title("één twee drie vier"), "één twee d");
}

#[test]
fn label_matches_std_lines() {
    let samples = [
        "", "\n", "\n\n", "a\n", "a\n\n", "\na", "\r\n", "a\r", "a\r\nb", "a\rb\nc", "abc\r\r\nxyz\r",
        "0123456789\r\n0123456789\r\n", "01234567890123\n\n", "x\ny\nz", "line one\nline two\n",
        "tabs\tand spaces \n  lead", "emoji 🎮🎮🎮🎮🎮🎮🎮🎮🎮🎮🎮\nünïcödé ßtring",
        "abcdefghi\rk\nrest", "\r", "\r\r\n", "ends with cr\r",
    ];
    for raw in samples {
        assert_eq!(normalize_title(raw), std_label(raw), "raw = {:?}", raw);
    }
}

#[test]
fn title_plan_styles_by_line_count() {
    assert!(matches!(title_plan(None), TitlePlan::Clear));
    assert!(matches!(title_plan(Some("")), TitlePlan::Clear));
    match title_plan(Some("Hello")) {
        TitlePlan::Styled { text, font_size, alignment } => {
            assert_eq!(text, "Hello");
            assert_eq!(font_size, 14);
            assert_eq!(alignment, "bottom");
        }
        TitlePlan::Clear => panic!("expected a styled title"),
    }
    match title_plan(Some("Two\nlines")) {
        TitlePlan::Styled { text, font_size, alignment } => {
            assert_eq!(text, "Two\nlines");
            assert_eq!(font_size, 10);
            assert_eq!(alignment, "middle");
        }
        TitlePlan::Clear => panic!("expected a styled title"),
    }
}

#[test]
fn restored_title_prefers_the_settings_label() {
    assert_eq!(restored_title(Some("Label"), Some("Cached")).as_deref(), Some("Label"));
    assert_eq!(restored_title(Some(""), Some("Cached")).as_deref(), Some("Cached"));
    assert_eq!(restored_title(None, Some("Cached")).as_deref(), Some("Cached"));
    assert_eq!(restored_title(None, Some("")), None);
    assert_eq!(restored_title(Some(""), None), None);
    assert_eq!(restored_title(None, None), None);
}

#[test]
fn image_data_defaults_to_empty() {
    assert_eq!(image_data(Some("data:image/png;base64,AAAA")), "data:image/png;base64,AAAA");
    assert_eq!(image_data(None), "");
}

#[test]
fn optional_text_drops_empty() {
    assert_eq!(optional_text(""), None);
    assert_eq!(optional_text("x").as_deref(), Some("x"));
}
