use hypostats::server::{
    attribute_dump_query, class_dump_query, class_lookup_query, column_dump_queries,
    format_spi_rows, load_failure_message, load_steps, load_success_message, oid_from_row_bytes,
    statistic_dump_query, LoadTarget, TableDump,
};

#[test]
fn dump_queries_are_built() {
    assert_eq!(class_lookup_query("bar"), "SELECT oid, relnatts from pg_class where relname='bar'");
    assert_eq!(class_dump_query(32942), "SELECT pg_class_dump(32942)");
    assert_eq!(
        statistic_dump_query(32942, 2),
        "SELECT pg_statistic_dump(32942, CAST (2 as SMALLINT))"
    );
    assert_eq!(attribute_dump_query(-5, 1), "SELECT pg_attribute_dump(-5, 1)");
}

#[test]
fn one_dump_query_per_column() {
    let (stats, atts) = column_dump_queries(41281, 3);
    assert_eq!(stats.len(), 3);
    assert_eq!(atts.len(), 3);
    assert_eq!(stats[0], "SELECT pg_statistic_dump(41281, CAST (1 as SMALLINT))");
    assert_eq!(stats[2], "SELECT pg_statistic_dump(41281, CAST (3 as SMALLINT))");
    assert_eq!(atts[1], "SELECT pg_attribute_dump(41281, 2)");
    let (stats, atts) = column_dump_queries(1, 0);
    assert!(stats.is_empty() && atts.is_empty());
    let (stats, _) = column_dump_queries(1, -4);
    assert!(stats.is_empty());
}

#[test]
fn load_runs_class_then_statistics_then_attributes() {
    let dump = TableDump {
        class_info: "{\"oid\":1}".to_string(),
        stats_info: vec!["{\"s\":1}".to_string(), "{\"s\":2}".to_string()],
        atts_info: vec!["{\"a\":1}".to_string()],
    };
    let steps = load_steps(&dump);
    assert_eq!(steps.len(), 4);
    assert_eq!(steps[0].target, LoadTarget::Class);
    assert_eq!(steps[0].query, "SELECT pg_class_load('{\"oid\":1}')");
    assert_eq!(steps[1].target, LoadTarget::Statistic);
    assert_eq!(steps[2].query, "SELECT pg_statistic_load('{\"s\":2}')");
    assert_eq!(steps[3].target, LoadTarget::Attribute);
    assert_eq!(steps[3].query, "SELECT pg_attribute_load('{\"a\":1}')");
}

#[test]
fn load_replies() {
    assert_eq!(load_failure_message(LoadTarget::Class), "Failed to load pg_class column\n");
    assert_eq!(load_failure_message(LoadTarget::Statistic), "Failed to a load pg_statistic\n");
    assert_eq!(load_failure_message(LoadTarget::Attribute), "Failed to a load pg_attribute\n");
    assert_eq!(load_success_message(), "Successfully loaded data\n");
}

#[test]
fn query_results_print_with_tabs_and_nulls() {
    let rows = vec![
        vec![Some("1".to_string()), None, Some("x".to_string())],
        vec![],
        vec![Some(String::new())],
    ];
    assert_eq!(format_spi_rows(&rows), "1\tNULL\tx\t\n\n\t\n");
    assert_eq!(format_spi_rows(&vec![]), "");
}

#[test]
fn oid_bytes_are_big_endian() {
    assert_eq!(oid_from_row_bytes(&[0, 0, 0x80, 0xae]), 32942);
    assert_eq!(oid_from_row_bytes(&[0xff, 0xff, 0xff, 0xfe, 9]), -2);
    assert_eq!(oid_from_row_bytes(&[0x80, 0, 0, 0]), i32::MIN);
    assert_eq!(oid_from_row_bytes(&[0x7f, 0xff, 0xff, 0xff]), i32::MAX);
}
