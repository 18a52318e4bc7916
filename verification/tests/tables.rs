use athena::models::ResourceSummary;
use athena::number::Real;
use athena::tables::{
    campaign_columns, campaign_row, experiment_columns, experiment_row, fmt_duration, fmt_ms,
    fmt_objective, DataCell,
};

fn float(v: f64) -> Real {
    let bits = v.abs().to_bits() as i64;
    Real {
        rank: if v.is_sign_negative() { -bits - 1 } else { bits },
        text: format!("{v}"),
        fixed1: format!("{v:.1}"),
        fixed2: format!("{v:.2}"),
        fixed3: format!("{v:.3}"),
        fixed4: format!("{v:.4}"),
    }
}

#[test]
fn tables_formats_epoch_millis_as_utc() {
    assert_eq!(fmt_ms(&Some("1790262480000".into())), "2026-09-24 15:08");
    assert_eq!(fmt_ms(&Some("0".into())), "1970-01-01 00:00");
    assert_eq!(fmt_ms(&None), "\u{2014}");
}

#[test]
fn formats_durations_and_objectives() {
    assert_eq!(fmt_duration(Some(45)), "45s");
    assert_eq!(fmt_duration(Some(3725)), "1h 02m");
    assert_eq!(
        fmt_objective(&Some(float(0.83)), &Some("maximize".into())),
        "0.8300 \u{2191}"
    );
    assert_eq!(
        fmt_objective(&Some(float(4452.5)), &Some("minimize".into())),
        "4452.5 \u{2193}"
    );
}

/// What a cell sorts by.
fn key_of(cell: &DataCell<()>) -> String {
    match cell {
        DataCell::Custom(_, key, _) | DataCell::Text(key) | DataCell::Styled(key, _) => key.clone(),
        DataCell::Number(_, key) | DataCell::Count(_, key) => key.clone(),
        DataCell::Toggle(_, on) => on.to_string(),
        DataCell::Date(_, at) => at.clone().unwrap_or_default(),
        DataCell::Action(_) | DataCell::Dash => String::new(),
    }
}

#[test]
fn row_cells_match_declared_columns() {
    let e = ResourceSummary::default();
    for with_campaign in [true, false] {
        let row = experiment_row(&e, (), with_campaign);
        assert_eq!(row.cells.len(), experiment_columns(with_campaign).len());
        let keys: Vec<String> = row.cells.iter().map(key_of).collect();
        assert_eq!(keys.len(), row.cells.len());
    }
    let row = campaign_row(&e, (), "x");
    assert_eq!(row.cells.len(), campaign_columns().len());
}

#[test]
fn campaigns_sort_by_label_and_name() {
    let c = ResourceSummary { name: "drive-x".into(), ..Default::default() };
    assert_eq!(key_of(&campaign_row(&c, (), "x").cells[0]), "x drive-x");
}

#[test]
fn durations_and_objectives_at_the_edges() {
    assert_eq!(fmt_duration(None), "\u{2014}");
    assert_eq!(fmt_duration(Some(59)), "59s");
    assert_eq!(fmt_objective(&None, &Some("maximize".into())), "\u{2014}");
    assert_eq!(fmt_objective(&Some(float(1000.0)), &None), "1000.0");
    assert_eq!(fmt_objective(&Some(float(999.99)), &None), "999.9900");
    assert_eq!(fmt_objective(&Some(float(-1234.56)), &None), "-1234.6");
    assert_eq!(fmt_objective(&Some(float(f64::NAN)), &None), "NaN");
}
