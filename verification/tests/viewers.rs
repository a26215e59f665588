use twitch_opendeck::actions::{viewer_title, ViewerLookup};
use twitch_opendeck::viewers::format_viewers;

fn float_label(n: u32) -> String {
    if n >= 1_000_000 {
        format!("{:.1}M", n as f64 / 1_000_000.0)
    } else if n >= 10_000 {
        format!("{:.0}K", n as f64 / 1_000.0)
    } else if n >= 1_000 {
        format!("{:.1}K", n as f64 / 1_000.0)
    } else {
        n.to_string()
    }
}

#[test]
fn viewer_labels_below_a_thousand_are_plain() {
    assert_eq!(format_viewers(0), "0");
    assert_eq!(format_viewers(7), "7");
    assert_eq!(format_viewers(42), "42");
    assert_eq!(format_viewers(999), "999");
}

#[test]
fn viewer_labels_in_thousands() {
    assert_eq!(format_viewers(1_000), "1.0K");
    assert_eq!(format_viewers(1_234), "1.2K");
    assert_eq!(format_viewers(9_999), "10.0K");
    assert_eq!(format_viewers(10_000), "10K");
    assert_eq!(format_viewers(15_499), "15K");
    assert_eq!(format_viewers(999_999), "1000K");
}

#[test]
fn viewer_labels_in_millions() {
    assert_eq!(format_viewers(1_000_000), "1.0M");
    assert_eq!(format_viewers(1_540_000), "1.5M");
    assert_eq!(format_viewers(u32::MAX), "4295.0M");
}

#[test]
fn viewer_labels_round_ties_as_the_float_formatter_does() {
    for n in [1_050u32, 1_150, 1_250, 1_350, 2_450, 10_500, 11_500, 12_500, 1_050_000, 1_150_000, 1_250_000, 1_750_000, 2_250_000, 3_050_000] {
        assert_eq!(format_viewers(n), float_label(n), "n = {}", n);
    }
}

#[test]
fn viewer_labels_agree_with_the_float_formatter() {
    let mut n: u64 = 0;
    while n <= u32::MAX as u64 {
        let v = n as u32;
        assert_eq!(format_viewers(v), float_label(v), "n = {}", v);
        n = if n < 20_000 { n + 1 } else if n < 2_000_000 { n + 37 } else { n * 101 / 100 + 50_000 };
    }
    for n in (990_000u32..1_010_000).step_by(13) {
        assert_eq!(format_viewers(n), float_label(n), "n = {}", n);
    }
    for n in (0u32..200).map(|k| 50_000 + k * 100_000) {
        assert_eq!(format_viewers(n), float_label(n), "n = {}", n);
    }
}

#[test]
fn viewer_title_on_appearance() {
    assert_eq!(viewer_title(ViewerLookup::NoCredentials, false).as_deref(), Some("N/A"));
    assert_eq!(viewer_title(ViewerLookup::Failed, false).as_deref(), Some("N/A"));
    assert_eq!(viewer_title(ViewerLookup::Offline, false).as_deref(), Some("0"));
    assert_eq!(viewer_title(ViewerLookup::Live(12_345), false).as_deref(), Some("12K"));
}

#[test]
fn viewer_title_on_periodic_update() {
    assert_eq!(viewer_title(ViewerLookup::NoCredentials, true), None);
    assert_eq!(viewer_title(ViewerLookup::Failed, true), None);
    assert_eq!(viewer_title(ViewerLookup::Offline, true).as_deref(), Some("0"));
    assert_eq!(viewer_title(ViewerLookup::Live(3), true).as_deref(), Some("3"));
}
