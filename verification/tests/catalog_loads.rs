use hypostats::catalog::{
    numbers_column, statistic_array_columns, trailing_null_flags, values_column, write_action,
    ArrayColumn, Catalog, RelSizeOverrides, WriteAction,
};
use hypostats::statistic::{PgStatisticRow, StatSlot};
use hypostats::stavalues::{ANYARRAYOID, DATEOID, FLOAT4OID, FLOAT8OID, INT4OID, INT8OID, NUMERICOID, VARCHAROID};

fn slot(numbers: &str, values_type: u32, values: &str) -> StatSlot {
    StatSlot { kind: 1, op: 96, coll: 0, numbers: numbers.to_string(), values_type, values: values.to_string() }
}

fn row(slots: Vec<StatSlot>) -> PgStatisticRow {
    PgStatisticRow {
        starelid: 1,
        staattnum: 1,
        stainherit: false,
        stanullfrac_bits: 0,
        stawidth: 4,
        stadistinct_bits: 0,
        slots,
    }
}

#[test]
fn array_columns_follow_element_type() {
    assert_eq!(numbers_column("null"), ArrayColumn::Null);
    assert_eq!(numbers_column("[0.5]"), ArrayColumn::Float4Array);
    assert_eq!(values_column(INT4OID, "null"), Some(ArrayColumn::Null));
    assert_eq!(values_column(DATEOID, "[\"2020-01-01\"]"), Some(ArrayColumn::DateArray));
    assert_eq!(values_column(VARCHAROID, "[\"a\"]"), Some(ArrayColumn::VarcharArray));
    assert_eq!(values_column(NUMERICOID, "[1.5]"), Some(ArrayColumn::Float4Array));
    assert_eq!(values_column(FLOAT4OID, "[1.5]"), Some(ArrayColumn::Float4Array));
    assert_eq!(values_column(FLOAT8OID, "[1.5]"), Some(ArrayColumn::Float8Array));
    assert_eq!(values_column(INT4OID, "[1]"), Some(ArrayColumn::Int4Array));
    assert_eq!(values_column(INT8OID, "[1]"), Some(ArrayColumn::Int8Array));
    assert_eq!(values_column(16, "[true]"), None);
}

#[test]
fn statistic_row_array_columns() {
    let r = row(vec![
        slot("[0.75]", INT4OID, "[1]"),
        slot("[0.4]", ANYARRAYOID, "null"),
        slot("null", ANYARRAYOID, "null"),
        slot("null", ANYARRAYOID, "null"),
        slot("null", ANYARRAYOID, "null"),
    ]);
    let cols = statistic_array_columns(&r).unwrap();
    assert_eq!(cols.len(), 10);
    assert_eq!(cols[0], ArrayColumn::Float4Array);
    assert_eq!(cols[1], ArrayColumn::Float4Array);
    assert_eq!(cols[2], ArrayColumn::Null);
    assert_eq!(cols[5], ArrayColumn::Int4Array);
    assert_eq!(cols[6], ArrayColumn::Null);
}

#[test]
fn unloadable_values_are_refused() {
    let r = row(vec![
        slot("[0.75]", INT4OID, "[1]"),
        slot("null", 16, "[true]"),
        slot("null", 25, "[\"a\"]"),
        slot("null", ANYARRAYOID, "null"),
        slot("null", ANYARRAYOID, "null"),
    ]);
    assert_eq!(statistic_array_columns(&r), Err(16));
}

#[test]
fn existing_attribute_rows_are_kept() {
    assert_eq!(write_action(Catalog::Class, true), WriteAction::Update);
    assert_eq!(write_action(Catalog::Statistic, true), WriteAction::Update);
    assert_eq!(write_action(Catalog::Attribute, true), WriteAction::KeepExisting);
    assert_eq!(write_action(Catalog::Class, false), WriteAction::Insert);
    assert_eq!(write_action(Catalog::Attribute, false), WriteAction::Insert);
}

#[test]
fn trailing_columns_start_null() {
    let flags = trailing_null_flags(33, 3);
    assert_eq!(flags.len(), 33);
    assert!(flags[..30].iter().all(|f| !f));
    assert!(flags[30..].iter().all(|f| *f));
    assert_eq!(trailing_null_flags(0, 0), Vec::<bool>::new());
    assert_eq!(trailing_null_flags(4, 4), vec![true; 4]);
}

#[test]
fn planner_sees_loaded_size() {
    let mut sizes = RelSizeOverrides::new();
    let measured = (1u32, 10.0f64.to_bits());
    assert_eq!(sizes.lookup(32942), None);
    assert_eq!(sizes.planner_size(32942, measured), measured);
    sizes.record(32942, 1000, 123456.0f64.to_bits());
    assert_eq!(sizes.planner_size(32942, measured), (1000, 123456.0f64.to_bits()));
    assert_eq!(sizes.planner_size(7, measured), measured);
    sizes.record(32942, -1, 5.0f64.to_bits());
    assert_eq!(sizes.lookup(32942), Some((u32::MAX, 5.0f64.to_bits())));
}
