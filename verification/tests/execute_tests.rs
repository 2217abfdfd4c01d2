use dbdesk::execute::{
    column_probe_sql, command_fallback_result, command_result, decode_cell, decode_mssql_cell,
    extract_rows_affected, mssql_query_result, normalize_rows, status_result, CellProbe,
    MssqlCellProbe, QueryResult, SqlValue,
};

fn empty_probe() -> CellProbe {
    CellProbe {
        text: None,
        int64: None,
        float_bits: None,
        boolean: None,
        ts_local: None,
        ts_utc: None,
    }
}

#[test]
fn decode_prefers_text_over_everything() {
    let p = CellProbe {
        text: Some("42".to_string()),
        int64: Some(42),
        float_bits: Some(42f64.to_bits()),
        boolean: Some(true),
        ts_local: Some("2024-01-01 00:00:00".to_string()),
        ts_utc: Some("2024-01-01T00:00:00Z".to_string()),
    };
    assert!(matches!(decode_cell(&p), SqlValue::Text(ref s) if s == "42"));
}

#[test]
fn decode_tries_integer_before_float() {
    // an integral value that also decodes as a float must be reported
    // as an integer
    let p = CellProbe { int64: Some(7), float_bits: Some(7f64.to_bits()), ..empty_probe() };
    assert!(matches!(decode_cell(&p), SqlValue::Int(7)));
}

#[test]
fn decode_each_type_alone() {
    assert!(matches!(
        decode_cell(&CellProbe { int64: Some(-3), ..empty_probe() }),
        SqlValue::Int(-3)
    ));
    let bits = 2.5f64.to_bits();
    match decode_cell(&CellProbe { float_bits: Some(bits), ..empty_probe() }) {
        SqlValue::Float(b) => assert_eq!(f64::from_bits(b), 2.5),
        other => panic!("expected Float, got {:?}", std::mem::discriminant(&other)),
    }
    assert!(matches!(
        decode_cell(&CellProbe { boolean: Some(true), ..empty_probe() }),
        SqlValue::Bool(true)
    ));
    assert!(matches!(
        decode_cell(&CellProbe { ts_local: Some("2024-05-01 12:00:00".to_string()), ..empty_probe() }),
        SqlValue::Text(ref s) if s == "2024-05-01 12:00:00"
    ));
    assert!(matches!(
        decode_cell(&CellProbe { ts_utc: Some("2024-05-01T12:00:00+00:00".to_string()), ..empty_probe() }),
        SqlValue::Text(ref s) if s == "2024-05-01T12:00:00+00:00"
    ));
    assert!(matches!(decode_cell(&empty_probe()), SqlValue::Null));
}

#[test]
fn decode_boolean_after_float() {
    let p = CellProbe { float_bits: Some(1f64.to_bits()), boolean: Some(true), ..empty_probe() };
    assert!(matches!(decode_cell(&p), SqlValue::Float(_)));
}

#[test]
fn decode_timestamps_come_last() {
    let p = CellProbe {
        boolean: Some(false),
        ts_local: Some("2024-01-01 00:00:00".to_string()),
        ..empty_probe()
    };
    assert!(matches!(decode_cell(&p), SqlValue::Bool(false)));
}

#[test]
fn mssql_decode_widens_int32() {
    let p = MssqlCellProbe {
        text: None,
        int32: Some(-5),
        int64: Some(99),
        float_bits: None,
        boolean: None,
    };
    assert!(matches!(decode_mssql_cell(&p), SqlValue::Int(-5)));
}

#[test]
fn round_trip_literal_select_shape() {
    // a query with one known value: one column, one row, the value
    // decoded to the matching typed value
    let columns = vec!["?column?".to_string()];
    let probes = vec![vec![CellProbe { int64: Some(1), ..empty_probe() }]];
    let q = normalize_rows(columns, &probes);
    assert_eq!(q.columns, vec!["?column?".to_string()]);
    assert_eq!(q.rows.len(), 1);
    assert_eq!(q.rows[0].len(), 1);
    assert!(matches!(q.rows[0][0], SqlValue::Int(1)));
}

#[test]
fn normalize_pads_short_rows_with_null() {
    let columns = vec!["a".to_string(), "b".to_string()];
    let probes = vec![vec![CellProbe { text: Some("x".to_string()), ..empty_probe() }]];
    let q = normalize_rows(columns, &probes);
    assert_eq!(q.rows[0].len(), 2);
    assert!(matches!(q.rows[0][0], SqlValue::Text(ref s) if s == "x"));
    assert!(matches!(q.rows[0][1], SqlValue::Null));
}

#[test]
fn command_and_zero_row_query_stay_distinguishable() {
    // a data-mutating statement: one affected_rows column, one row
    let cmd = command_result(3);
    assert_eq!(cmd.columns, vec!["affected_rows".to_string()]);
    assert_eq!(cmd.rows.len(), 1);
    assert!(matches!(cmd.rows[0][0], SqlValue::UInt(3)));
    assert_eq!(extract_rows_affected(&cmd), Some(3));
    // a query matching zero rows: the real column list, zero rows
    let empty = normalize_rows(vec!["id".to_string(), "name".to_string()], &vec![]);
    assert_eq!(empty.columns.len(), 2);
    assert_eq!(empty.rows.len(), 0);
    // callers can always tell the two shapes apart
    assert!(cmd.rows.len() == 1 && empty.rows.len() == 0);
}

#[test]
fn rows_affected_extraction() {
    // empty result: nothing to report
    let q = QueryResult { columns: vec![], rows: vec![] };
    assert_eq!(extract_rows_affected(&q), None);
    // ordinary query: the number of rows returned
    let q = normalize_rows(
        vec!["a".to_string()],
        &vec![vec![empty_probe()], vec![empty_probe()]],
    );
    assert_eq!(extract_rows_affected(&q), Some(2));
    // command shape holding a signed count wraps like the original
    let q = QueryResult {
        columns: vec!["affected_rows".to_string()],
        rows: vec![vec![SqlValue::Int(-1)]],
    };
    assert_eq!(extract_rows_affected(&q), Some(u64::MAX));
    // command shape holding no numeric cell reports nothing
    let q = QueryResult {
        columns: vec!["affected_rows".to_string()],
        rows: vec![vec![SqlValue::Text("3".to_string())]],
    };
    assert_eq!(extract_rows_affected(&q), None);
    let q = QueryResult { columns: vec!["affected_rows".to_string()], rows: vec![vec![]] };
    assert_eq!(extract_rows_affected(&q), None);
}

#[test]
fn probe_sql_appends_zero_limit_to_plain_selects() {
    assert_eq!(
        column_probe_sql("SELECT * FROM t").as_deref(),
        Some("SELECT * FROM t LIMIT 0")
    );
    // trailing semicolons are only stripped from the very end of the text
    assert_eq!(
        column_probe_sql("  select x from t ;; ").as_deref(),
        Some("select x from t ;; LIMIT 0")
    );
    assert_eq!(
        column_probe_sql("select x from t;;").as_deref(),
        Some("select x from t LIMIT 0")
    );
    assert_eq!(column_probe_sql("Select 1").as_deref(), Some("Select 1 LIMIT 0"));
}

#[test]
fn probe_sql_never_reissues_non_queries() {
    assert_eq!(column_probe_sql("INSERT INTO t VALUES (1)"), None);
    assert_eq!(column_probe_sql("UPDATE t SET a = 1"), None);
    assert_eq!(column_probe_sql("DELETE FROM t"), None);
}

#[test]
fn probe_sql_respects_an_existing_row_limit() {
    assert_eq!(column_probe_sql("SELECT * FROM t LIMIT 5"), None);
    assert_eq!(column_probe_sql("select * from t limit 5;"), None);
}

#[test]
fn command_fallback_prefers_command_error() {
    let ok = command_fallback_result(Ok(7)).unwrap();
    assert_eq!(ok.columns, vec!["affected_rows".to_string()]);
    assert!(matches!(ok.rows[0][0], SqlValue::UInt(7)));
    let err = command_fallback_result(Err("syntax error near 'FORM'".to_string())).unwrap_err();
    assert_eq!(err, "SQL execution failed: syntax error near 'FORM'");
}

#[test]
fn protocol_engine_status_result() {
    let q = status_result();
    assert_eq!(q.columns, vec!["status".to_string()]);
    assert!(matches!(q.rows[0][0], SqlValue::Text(ref s) if s == "执行成功"));
}

#[test]
fn protocol_engine_result_assembly() {
    // no column metadata: the statement was a command; synthetic status
    // with the localized success text as its one cell
    let q = mssql_query_result(vec![], &vec![]);
    assert_eq!(q.columns, vec!["status".to_string()]);
    assert_eq!(q.rows.len(), 1);
    assert!(matches!(q.rows[0][0], SqlValue::Text(ref s) if s == "执行成功"));
    // with metadata: rows normalized as usual
    let probes = vec![vec![MssqlCellProbe {
        text: Some("x".to_string()),
        int32: None,
        int64: None,
        float_bits: None,
        boolean: None,
    }]];
    let q = mssql_query_result(vec!["c".to_string()], &probes);
    assert_eq!(q.columns, vec!["c".to_string()]);
    assert!(matches!(q.rows[0][0], SqlValue::Text(ref s) if s == "x"));
}
