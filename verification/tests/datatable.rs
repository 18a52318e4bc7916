use athena::datatable::{
    arrow, count_label, empty_label, fmt_ms, toggled, visible, Key, Row,
};

#[test]
fn datatable_formats_epoch_millis_as_utc() {
    // 2026-09-24T15:08:00Z
    assert_eq!(fmt_ms(&Some("1790262480000".into())), "2026-09-24 15:08");
    assert_eq!(fmt_ms(&Some("0".into())), "1970-01-01 00:00");
    assert_eq!(fmt_ms(&None), "\u{2014}");
}

fn row(name: &str, ms: Option<&str>) -> Row<()> {
    Row::new(name).text(name).date(&ms.map(String::from))
}

#[test]
fn filter_matches_all_terms_case_insensitively() {
    let rows = vec![
        row("humanoid-recover", None),
        row("spider-recover", None),
        row("spot-locomotion", None),
    ];
    assert_eq!(visible(&rows, "RECOVER spi", None), vec![1]);
    assert_eq!(visible(&rows, "", None), vec![0, 1, 2]);
}

#[test]
fn date_sort_orders_numerically_and_keeps_missing_last() {
    let rows = vec![
        row("a", Some("900")),
        row("b", None),
        row("c", Some("10000")),
    ];
    assert_eq!(visible(&rows, "", Some((1, true))), vec![2, 0, 1]);
    assert_eq!(visible(&rows, "", Some((1, false))), vec![0, 2, 1]);
}

#[test]
fn ties_keep_their_order_both_ways() {
    let rows = vec![row("a", Some("5")), row("b", Some("5")), row("c", Some("4"))];
    assert_eq!(visible(&rows, "", Some((1, false))), vec![2, 0, 1]);
    assert_eq!(visible(&rows, "", Some((1, true))), vec![0, 1, 2]);
}

#[test]
fn a_text_key_ignores_case() {
    assert_eq!(Key::text("ÄbC"), Key::text("äBc"));
    assert!(Key::text("a").comes_before(&Key::text("B")));
    assert_eq!(Key::ms(&Some("x".into())), Key::Missing);
    assert_eq!(Key::ms(&Some("12".into())), Key::Num(12));
}

#[test]
fn clicks_alternate_the_direction() {
    let once = toggled(None, 2, true);
    assert_eq!(once, Some((2, false)));
    assert_eq!(toggled(once, 2, true), Some((2, true)));
    assert_eq!(toggled(once, 1, false), once);
    assert_ne!(arrow(once, 2), arrow(Some((2, true)), 2));
    assert_eq!(arrow(once, 1), "");
}

#[test]
fn labels_say_how_much_is_shown() {
    assert_eq!(count_label(1, 3), "1 / 3");
    assert_eq!(empty_label(0, "nothing"), "nothing");
}
