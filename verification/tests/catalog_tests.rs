use dbdesk::catalog::{
    health_check_sql, mssql_column_info, mssql_describe_sql, mssql_list_databases_sql,
    mssql_list_tables_sql, mysql_column_info, mysql_list_databases_sql, mysql_list_tables_sql,
    mysql_show_columns_sql, postgres_column_info, postgres_describe_sql,
    postgres_list_databases_sql, postgres_list_tables_sql, sqlite_column_info,
    sqlite_list_tables_sql, sqlite_table_info_sql,
};

#[test]
fn catalog_constants() {
    assert_eq!(health_check_sql(), "SELECT 1");
    assert_eq!(mysql_list_databases_sql(), "SHOW DATABASES");
    assert_eq!(
        postgres_list_databases_sql(),
        "SELECT datname FROM pg_database WHERE datistemplate = false ORDER BY datname"
    );
    assert_eq!(
        mssql_list_databases_sql(),
        "SELECT name FROM sys.databases WHERE database_id > 4 ORDER BY name"
    );
    assert_eq!(
        sqlite_list_tables_sql(),
        "SELECT name FROM sqlite_master WHERE type='table' AND name NOT LIKE 'sqlite_%' ORDER BY name"
    );
    assert_eq!(
        postgres_list_tables_sql(),
        "SELECT table_name FROM information_schema.tables WHERE table_schema = 'public' AND table_type = 'BASE TABLE' ORDER BY table_name"
    );
}

#[test]
fn mysql_table_listing_escapes_backticks() {
    assert_eq!(mysql_list_tables_sql(None), "SHOW TABLES");
    assert_eq!(mysql_list_tables_sql(Some("shop")), "SHOW TABLES FROM `shop`");
    assert_eq!(mysql_list_tables_sql(Some("my`db")), "SHOW TABLES FROM `my``db`");
}

#[test]
fn mssql_table_listing_escapes_quotes() {
    assert_eq!(
        mssql_list_tables_sql(None),
        "SELECT TABLE_NAME FROM INFORMATION_SCHEMA.TABLES WHERE TABLE_TYPE = 'BASE TABLE' ORDER BY TABLE_NAME"
    );
    assert_eq!(
        mssql_list_tables_sql(Some("o'brien")),
        "SELECT TABLE_NAME FROM INFORMATION_SCHEMA.TABLES WHERE TABLE_TYPE = 'BASE TABLE' AND TABLE_CATALOG = 'o''brien' ORDER BY TABLE_NAME"
    );
}

#[test]
fn sqlite_table_info_escapes_backticks() {
    assert_eq!(sqlite_table_info_sql("users"), "PRAGMA table_info(`users`)");
    assert_eq!(sqlite_table_info_sql("we`ird"), "PRAGMA table_info(`we``ird`)");
}

#[test]
fn mysql_show_columns_qualifies_and_escapes() {
    assert_eq!(mysql_show_columns_sql("users", None), "SHOW COLUMNS FROM `users`");
    assert_eq!(
        mysql_show_columns_sql("users", Some("shop")),
        "SHOW COLUMNS FROM `shop`.`users`"
    );
    assert_eq!(
        mysql_show_columns_sql("u`sers", Some("sh`op")),
        "SHOW COLUMNS FROM `sh``op`.`u``sers`"
    );
}

#[test]
fn postgres_describe_interpolates_escaped_table() {
    let sql = postgres_describe_sql("o'brien");
    assert!(sql.starts_with("SELECT column_name, data_type, is_nullable, column_default,"));
    assert!(sql.contains("WHERE c.table_schema = 'public' AND c.table_name = 'o''brien'"));
    assert!(sql.ends_with("ORDER BY c.ordinal_position"));
}

#[test]
fn mssql_describe_interpolates_table_twice_and_catalog() {
    let sql = mssql_describe_sql("o'brien", Some("sho'p"));
    assert!(sql.contains("COLUMNPROPERTY(OBJECT_ID('o''brien'), COLUMN_NAME, 'IsIdentity')"));
    assert!(sql.contains("WHERE c.TABLE_CATALOG = 'sho''p' AND c.TABLE_NAME = 'o''brien'"));
    assert!(sql.ends_with("ORDER BY c.ORDINAL_POSITION"));
    let sql = mssql_describe_sql("t", None);
    assert!(sql.contains("WHERE c.TABLE_NAME = 't' ORDER BY c.ORDINAL_POSITION"));
    assert!(!sql.contains("TABLE_CATALOG = '"));
}

#[test]
fn sqlite_column_mapping() {
    let c = sqlite_column_info(
        "id".to_string(),
        "INTEGER".to_string(),
        1,
        None,
        1,
    );
    assert_eq!(c.name, "id");
    assert_eq!(c.data_type, "INTEGER");
    assert!(!c.nullable);
    assert_eq!(c.default, None);
    assert!(c.primary_key);
    assert!(!c.auto_increment);
    let c = sqlite_column_info("note".to_string(), "TEXT".to_string(), 0, Some("''".to_string()), 0);
    assert!(c.nullable);
    assert!(!c.primary_key);
}

#[test]
fn mysql_column_mapping() {
    let c = mysql_column_info(
        "id".to_string(),
        "bigint".to_string(),
        "NO".to_string(),
        "PRI".to_string(),
        None,
        "auto_increment".to_string(),
    );
    assert!(!c.nullable);
    assert!(c.primary_key);
    assert!(c.auto_increment);
    let c = mysql_column_info(
        "name".to_string(),
        "varchar(50)".to_string(),
        "YES".to_string(),
        "".to_string(),
        Some("NULL".to_string()),
        "".to_string(),
    );
    assert!(c.nullable);
    assert!(!c.primary_key);
    assert!(!c.auto_increment);
}

#[test]
fn postgres_column_mapping() {
    let c = postgres_column_info(
        "id".to_string(),
        "integer".to_string(),
        "NO".to_string(),
        Some("nextval('t_id_seq'::regclass)".to_string()),
        true,
        true,
    );
    assert!(!c.nullable);
    assert!(c.primary_key);
    assert!(c.auto_increment);
}

#[test]
fn mssql_column_mapping_uses_fallbacks() {
    let c = mssql_column_info("id".to_string(), None, None, None, None, None);
    assert_eq!(c.data_type, "");
    assert!(!c.nullable);
    assert!(!c.primary_key);
    assert!(!c.auto_increment);
    let c = mssql_column_info(
        "id".to_string(),
        Some("int".to_string()),
        Some("YES".to_string()),
        Some("(1)".to_string()),
        Some(1),
        Some(1),
    );
    assert_eq!(c.data_type, "int");
    assert!(c.nullable);
    assert_eq!(c.default.as_deref(), Some("(1)"));
    assert!(c.primary_key);
    assert!(c.auto_increment);
    // any flag other than one is clear
    let c = mssql_column_info("x".to_string(), None, Some("NO".to_string()), None, Some(0), Some(2));
    assert!(!c.nullable);
    assert!(!c.primary_key);
    assert!(!c.auto_increment);
}
