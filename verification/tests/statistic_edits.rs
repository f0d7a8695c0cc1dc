use hypostats::statistic::{
    find_slot, modify_error_message, parse_statistic_target, pg_statistic_modify, ModifyError,
    PgStatisticRow, StatSlot, StatisticEdit, StatisticTarget, STATISTIC_KIND_CORRELATION,
    STATISTIC_KIND_HISTOGRAM, STATISTIC_KIND_MCV,
};
use hypostats::text::decimal_string;
use hypostats::stavalues::{
    check_histogram_i32, check_histogram_i64, check_values_length, verify_histogram, verify_stavalues, FloatCheck,
    ValuesError, ANYARRAYOID, DATEOID, FLOAT4OID, FLOAT8OID, INT4OID, INT8OID,
};

fn slot(kind: i16, op: u32, numbers: &str, values_type: u32, values: &str) -> StatSlot {
    StatSlot {
        kind,
        op,
        coll: 0,
        numbers: numbers.to_string(),
        values_type,
        values: values.to_string(),
    }
}

fn empty_slot() -> StatSlot {
    slot(0, 0, "null", ANYARRAYOID, "null")
}

/// The second column of the dump shown in the project's notes: an MCV slot,
/// a histogram slot and a correlation slot over an `int4` column.
fn sample_row() -> PgStatisticRow {
    PgStatisticRow {
        starelid: 32942,
        staattnum: 2,
        stainherit: false,
        stanullfrac_bits: 0.0f32.to_bits(),
        stawidth: 4,
        stadistinct_bits: (-0.75f32).to_bits(),
        slots: vec![
            slot(STATISTIC_KIND_MCV, 96, "[0.5]", INT4OID, "[4]"),
            slot(STATISTIC_KIND_HISTOGRAM, 97, "null", INT4OID, "[2,3]"),
            slot(STATISTIC_KIND_CORRELATION, 97, "[0.8]", ANYARRAYOID, "null"),
            empty_slot(),
            empty_slot(),
        ],
    }
}

fn same_slot(a: &StatSlot, b: &StatSlot) -> bool {
    a.kind == b.kind
        && a.op == b.op
        && a.coll == b.coll
        && a.numbers == b.numbers
        && a.values_type == b.values_type
        && a.values == b.values
}

#[test]
fn statistic_names_are_read() {
    let names = [
        ("NULLFRAC", StatisticTarget::NullFrac),
        ("WIDTH", StatisticTarget::Width),
        ("DISTINCT", StatisticTarget::Distinct),
        ("MOST COMMON VALUES", StatisticTarget::MostCommonValues),
        ("HISTOGRAM", StatisticTarget::Histogram),
        ("CORRELATION", StatisticTarget::Correlation),
        ("MOST COMMON ELEMENT", StatisticTarget::MostCommonElement),
        ("DISTINCT ELEMENT HISTOGRAM", StatisticTarget::DistinctElementHistogram),
        ("RANGE LENGTH HISTOGRAM", StatisticTarget::RangeLengthHistogram),
        ("KIND BOUNDS HISTOGRAM", StatisticTarget::KindBoundsHistogram),
    ];
    for (name, target) in names {
        assert_eq!(parse_statistic_target(name), Some(target));
    }
}

#[test]
fn unknown_statistic_name_is_refused() {
    assert_eq!(parse_statistic_target("nullfrac"), None);
    assert_eq!(parse_statistic_target(""), None);
    assert_eq!(parse_statistic_target("HISTOGRAM "), None);
}

#[test]
fn null_fraction_edit_changes_only_that_column() {
    let before = sample_row();
    let bits = 0.25f32.to_bits();
    let (row, check) = pg_statistic_modify(sample_row(), StatisticEdit::NullFrac { bits }).unwrap();
    assert!(check.is_none());
    assert_eq!(row.stanullfrac_bits, bits);
    assert_eq!(row.stawidth, before.stawidth);
    assert_eq!(row.stadistinct_bits, before.stadistinct_bits);
    for k in 0..5 {
        assert!(same_slot(&row.slots[k], &before.slots[k]));
    }
}

#[test]
fn distinct_edit_sets_distinct() {
    let bits = (-1.0f32).to_bits();
    let (row, _) = pg_statistic_modify(sample_row(), StatisticEdit::Distinct { bits }).unwrap();
    assert_eq!(row.stadistinct_bits, bits);
    assert_eq!(row.stanullfrac_bits, 0.0f32.to_bits());
}

#[test]
fn width_edit_reads_an_integer() {
    let (row, _) =
        pg_statistic_modify(sample_row(), StatisticEdit::Width { text: "42".to_string() }).unwrap();
    assert_eq!(row.stawidth, 42);
    let (row, _) =
        pg_statistic_modify(sample_row(), StatisticEdit::Width { text: "-7".to_string() }).unwrap();
    assert_eq!(row.stawidth, -7);
    let (row, _) =
        pg_statistic_modify(sample_row(), StatisticEdit::Width { text: "+8".to_string() }).unwrap();
    assert_eq!(row.stawidth, 8);
}

#[test]
fn width_edit_refuses_non_integers() {
    for text in ["4.5", "", "abc", " 4", "2147483648", "-"] {
        let r = pg_statistic_modify(sample_row(), StatisticEdit::Width { text: text.to_string() });
        assert!(matches!(r, Err(ModifyError::InvalidWidth)), "{}", text);
    }
}

#[test]
fn mcv_edit_replaces_first_mcv_slot() {
    let edit = StatisticEdit::MostCommonValues {
        stanumbers: "[0.5,0.25]".to_string(),
        stanumbers_len: 2,
        stavalues: "[4,9]".to_string(),
    };
    let before = sample_row();
    let (row, check) = pg_statistic_modify(sample_row(), edit).unwrap();
    assert!(check.is_none());
    assert_eq!(row.slots[0].numbers, "[0.5,0.25]");
    assert_eq!(row.slots[0].values, "[4,9]");
    assert_eq!(row.slots[0].kind, STATISTIC_KIND_MCV);
    assert_eq!(row.slots[0].op, 96);
    for k in 1..5 {
        assert!(same_slot(&row.slots[k], &before.slots[k]));
    }
}

#[test]
fn mcv_edit_refuses_length_mismatch() {
    let edit = StatisticEdit::MostCommonValues {
        stanumbers: "[0.5,0.25]".to_string(),
        stanumbers_len: 2,
        stavalues: "[4]".to_string(),
    };
    let r = pg_statistic_modify(sample_row(), edit);
    assert!(matches!(r, Err(ModifyError::Values(ValuesError::LengthMismatch))));
}

#[test]
fn mcv_edit_refuses_bad_json_values() {
    let edit = StatisticEdit::MostCommonValues {
        stanumbers: "[0.5]".to_string(),
        stanumbers_len: 1,
        stavalues: "[\"four\"]".to_string(),
    };
    let r = pg_statistic_modify(sample_row(), edit);
    assert!(matches!(r, Err(ModifyError::Values(ValuesError::InvalidJson))));
}

#[test]
fn mcv_edit_on_float_column_returns_pending_check() {
    let mut row = sample_row();
    row.slots[0].values_type = FLOAT8OID;
    let edit = StatisticEdit::MostCommonValues {
        stanumbers: "[0.5]".to_string(),
        stanumbers_len: 1,
        stavalues: "[1.5]".to_string(),
    };
    let (row, check) = pg_statistic_modify(row, edit).unwrap();
    assert_eq!(row.slots[0].values, "[1.5]");
    match check {
        Some(FloatCheck::ValuesLength { element_type, stavalues, expected_len }) => {
            assert_eq!(element_type, FLOAT8OID);
            assert_eq!(stavalues, "[1.5]");
            assert_eq!(expected_len, 1);
        }
        _ => panic!("expected a pending length check"),
    }
}

#[test]
fn mcv_edit_on_date_column_is_unsupported() {
    let mut row = sample_row();
    row.slots[0].values_type = DATEOID;
    let edit = StatisticEdit::MostCommonValues {
        stanumbers: "[0.5]".to_string(),
        stanumbers_len: 1,
        stavalues: "[\"2020-01-01\"]".to_string(),
    };
    let r = pg_statistic_modify(row, edit);
    assert!(matches!(r, Err(ModifyError::Values(ValuesError::UnsupportedType))));
}

#[test]
fn histogram_edit_checks_increasing_bounds() {
    let edit = StatisticEdit::Histogram { stavalues: "[1,5,9]".to_string() };
    let (row, check) = pg_statistic_modify(sample_row(), edit).unwrap();
    assert!(check.is_none());
    assert_eq!(row.slots[1].values, "[1,5,9]");
    assert_eq!(row.slots[1].numbers, "null");

    let edit = StatisticEdit::Histogram { stavalues: "[1,5,5]".to_string() };
    let r = pg_statistic_modify(sample_row(), edit);
    assert!(matches!(r, Err(ModifyError::Values(ValuesError::NotIncreasing))));

    let edit = StatisticEdit::Histogram { stavalues: "[]".to_string() };
    let r = pg_statistic_modify(sample_row(), edit);
    assert!(matches!(r, Err(ModifyError::Values(ValuesError::EmptyHistogram))));
}

#[test]
fn correlation_edit_replaces_numbers_only() {
    let edit = StatisticEdit::Correlation { stanumbers: "[-0.3]".to_string() };
    let (row, check) = pg_statistic_modify(sample_row(), edit).unwrap();
    assert!(check.is_none());
    assert_eq!(row.slots[2].numbers, "[-0.3]");
    assert_eq!(row.slots[2].values, "null");
}

#[test]
fn absent_statistics_are_refused() {
    let cases = vec![
        (
            StatisticEdit::MostCommonElement { stanumbers: "[0.1]".to_string(), stavalues: "[1]".to_string() },
            StatisticTarget::MostCommonElement,
        ),
        (
            StatisticEdit::DistinctElementHistogram { stanumbers: "[1]".to_string() },
            StatisticTarget::DistinctElementHistogram,
        ),
        (
            StatisticEdit::RangeLengthHistogram { stanumbers: "[1]".to_string(), stavalues: "[1]".to_string() },
            StatisticTarget::RangeLengthHistogram,
        ),
        (
            StatisticEdit::KindBoundsHistogram { stavalues: "[1]".to_string() },
            StatisticTarget::KindBoundsHistogram,
        ),
    ];
    for (edit, target) in cases {
        let r = pg_statistic_modify(sample_row(), edit);
        assert!(matches!(r, Err(ModifyError::NotAStatistic(t)) if t == target));
    }
}

#[test]
fn slot_edit_goes_to_first_matching_slot() {
    let mut row = sample_row();
    row.slots[3] = slot(STATISTIC_KIND_CORRELATION, 5, "[0.1]", ANYARRAYOID, "null");
    let edit = StatisticEdit::Correlation { stanumbers: "[0.9]".to_string() };
    let (row, _) = pg_statistic_modify(row, edit).unwrap();
    assert_eq!(row.slots[2].numbers, "[0.9]");
    assert_eq!(row.slots[3].numbers, "[0.1]");
    assert_eq!(find_slot(&row.slots, STATISTIC_KIND_CORRELATION), Some(2));
    assert_eq!(find_slot(&row.slots, 7), None);
}

#[test]
fn other_slot_statistics_fill_their_slots() {
    let mut row = sample_row();
    row.slots[3] = slot(4, 0, "[0.1]", INT4OID, "[1]");
    row.slots[4] = slot(7, 0, "null", INT4OID, "[1,2]");
    let edit = StatisticEdit::MostCommonElement { stanumbers: "[0.2]".to_string(), stavalues: "[3]".to_string() };
    let (row, _) = pg_statistic_modify(row, edit).unwrap();
    assert_eq!(row.slots[3].numbers, "[0.2]");
    assert_eq!(row.slots[3].values, "[3]");
    let edit = StatisticEdit::KindBoundsHistogram { stavalues: "[5,6]".to_string() };
    let (row, _) = pg_statistic_modify(row, edit).unwrap();
    assert_eq!(row.slots[4].values, "[5,6]");
    assert_eq!(row.slots[4].numbers, "null");
}

#[test]
fn edits_are_idempotent() {
    let edit = || StatisticEdit::Histogram { stavalues: "[1,2,3]".to_string() };
    let (once, _) = pg_statistic_modify(sample_row(), edit()).unwrap();
    let (twice, _) = pg_statistic_modify(pg_statistic_modify(sample_row(), edit()).unwrap().0, edit()).unwrap();
    for k in 0..5 {
        assert!(same_slot(&once.slots[k], &twice.slots[k]));
    }
}

#[test]
fn refusals_are_answered_with_messages() {
    assert_eq!(
        modify_error_message(ModifyError::NotAStatistic(StatisticTarget::MostCommonValues)),
        "MCV is not a statistic for this column"
    );
    assert_eq!(
        modify_error_message(ModifyError::Values(ValuesError::LengthMismatch)),
        "stanum and stavalues have different lengths"
    );
    assert_eq!(
        modify_error_message(ModifyError::Values(ValuesError::NotIncreasing)),
        "Histogram bounds must be strictly increasing"
    );
    assert_eq!(modify_error_message(ModifyError::Values(ValuesError::UnsupportedType)), "Unsupported type");
}

#[test]
fn stavalues_lengths_are_checked() {
    assert!(matches!(verify_stavalues(INT4OID, "[1,2,3]", 3), Ok(None)));
    assert!(matches!(verify_stavalues(INT8OID, "[10000000000]", 1), Ok(None)));
    assert!(matches!(verify_stavalues(INT4OID, "[10000000000]", 1), Err(ValuesError::InvalidJson)));
    assert!(matches!(verify_stavalues(INT8OID, "[1,2]", 3), Err(ValuesError::LengthMismatch)));
    assert!(matches!(verify_stavalues(FLOAT4OID, "[1.0]", 1), Ok(Some(FloatCheck::ValuesLength { .. }))));
    assert!(matches!(verify_stavalues(25, "[\"a\"]", 1), Err(ValuesError::UnsupportedType)));
}

#[test]
fn histograms_are_checked() {
    assert!(matches!(verify_histogram(INT4OID, "[-3,0,7]"), Ok(None)));
    assert!(matches!(verify_histogram(INT8OID, "[2,1]"), Err(ValuesError::NotIncreasing)));
    assert!(matches!(verify_histogram(INT8OID, "not json"), Err(ValuesError::InvalidJson)));
    assert!(matches!(verify_histogram(FLOAT4OID, "[1.0]"), Ok(Some(FloatCheck::HistogramIncreasing { .. }))));
    assert!(matches!(verify_histogram(DATEOID, "[]"), Err(ValuesError::UnsupportedType)));
    assert_eq!(check_histogram_i32(&vec![1]), Ok(()));
    assert_eq!(check_histogram_i32(&vec![]), Err(ValuesError::EmptyHistogram));
    assert_eq!(check_histogram_i64(&vec![1, 2, 2]), Err(ValuesError::NotIncreasing));
    assert_eq!(check_histogram_i64(&vec![i64::MIN, 0, i64::MAX]), Ok(()));
}

#[test]
fn read_values_must_match_frequency_count() {
    assert_eq!(check_values_length(3, 3), Ok(()));
    assert_eq!(check_values_length(0, 0), Ok(()));
    assert_eq!(check_values_length(2, 3), Err(ValuesError::LengthMismatch));
}

#[test]
fn width_written_in_decimal_is_stored() {
    for w in [0, -123, 8192, i32::MIN, i32::MAX] {
        let text = decimal_string(w as i64);
        let (row, _) = pg_statistic_modify(sample_row(), StatisticEdit::Width { text }).unwrap();
        assert_eq!(row.stawidth, w);
        assert_eq!(row.starelid, 32942);
    }
}
