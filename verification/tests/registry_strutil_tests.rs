use dbdesk::config::{ConfigError, ConnectionConfig};
use dbdesk::connections::{
    apply_connection_update, find_connection, find_connection_index, register_connection,
    remove_connection, Connection,
};
use dbdesk::strutil::{
    contains_keyword, escape_doubling, starts_with_keyword, str_eq, strip_trailing_char, trim_sql,
    u64_to_dec,
};

fn conn(id: &str, db_type: &str) -> Connection {
    Connection {
        id: id.to_string(),
        name: format!("{id} name"),
        db_type: db_type.to_string(),
        config: ConnectionConfig::Sqlite { filepath: format!("/tmp/{id}.db") },
    }
}

#[test]
fn registry_lookup_finds_first_match() {
    let list = vec![conn("a", "sqlite"), conn("b", "mysql")];
    assert_eq!(find_connection_index(&list, "b"), Some(1));
    assert_eq!(find_connection_index(&list, "zz"), None);
    assert_eq!(find_connection(&list, "a").unwrap().name, "a name");
    assert!(find_connection(&list, "zz").is_none());
}

#[test]
fn registry_register_appends_under_a_fresh_id() {
    let cfg = serde_json::from_str::<serde_json::Value>(
        r#"{"host":"h","port":3306,"user":"u","password":"p"}"#,
    )
    .unwrap();
    let (list, id) = register_connection(
        vec![conn("a", "sqlite")],
        "new one".to_string(),
        "mysql".to_string(),
        &cfg,
    )
    .unwrap();
    assert_eq!(list.len(), 2);
    assert_eq!(list[0].id, "a");
    assert_eq!(list[1].name, "new one");
    assert_eq!(list[1].db_type, "mysql");
    assert_eq!(list[1].id, id);
    assert!(!id.is_empty());
    assert!(matches!(list[1].config, ConnectionConfig::Mysql { .. }));
    let err = register_connection(vec![], "x".to_string(), "oracle".to_string(), &cfg)
        .unwrap_err();
    assert!(matches!(err, ConfigError::UnsupportedEngine { .. }));
}

#[test]
fn registry_remove_drops_only_the_id() {
    let list = vec![conn("a", "sqlite"), conn("b", "mysql"), conn("a", "postgres")];
    let rest = remove_connection(list, "a");
    assert_eq!(rest.len(), 1);
    assert_eq!(rest[0].id, "b");
}

#[test]
fn registry_update_renames_and_reconfigures() {
    let list = vec![conn("a", "mysql"), conn("b", "sqlite")];
    let new_cfg = serde_json::from_str::<serde_json::Value>(
        r#"{"host":"h2","port":3307,"user":"u2","password":"p2"}"#,
    )
    .unwrap();
    let (list, changed) =
        apply_connection_update(list, "a", Some("renamed".to_string()), Some(&new_cfg)).unwrap();
    assert!(changed, "a config edit must invalidate the connection's pools");
    assert_eq!(list.len(), 2);
    assert_eq!(list[0].name, "renamed");
    assert_eq!(list[0].db_type, "mysql");
    match &list[0].config {
        ConnectionConfig::Mysql { host, port, user, password, .. } => {
            assert_eq!(host, "h2");
            assert_eq!(*port, 3307);
            assert_eq!(user, "u2");
            assert_eq!(password, "p2");
        }
        _ => panic!("expected Mysql"),
    }
    assert_eq!(list[1].id, "b");
}

#[test]
fn registry_update_without_config_keeps_pools() {
    let list = vec![conn("a", "sqlite")];
    let (list, changed) =
        apply_connection_update(list, "a", Some("renamed".to_string()), None).unwrap();
    assert!(!changed);
    assert_eq!(list[0].name, "renamed");
    assert!(matches!(list[0].config, ConnectionConfig::Sqlite { .. }));
}

#[test]
fn registry_update_unknown_id_or_bad_config_fails() {
    let err = apply_connection_update(vec![conn("a", "sqlite")], "zz", None, None).unwrap_err();
    assert_eq!(err, "Connection not found");
    let bad = serde_json::from_str::<serde_json::Value>(r#"{}"#).unwrap();
    let err =
        apply_connection_update(vec![conn("a", "sqlite")], "a", None, Some(&bad)).unwrap_err();
    assert_eq!(err, "Missing filepath for SQLite connection");
}

#[test]
fn registry_update_rejects_missing_required_field() {
    // an edit whose new bag lacks a required field is rejected with the
    // error naming the field and engine, never defaulted
    let bad = serde_json::from_str::<serde_json::Value>(
        r#"{"port":3306,"user":"u","password":"p"}"#,
    )
    .unwrap();
    let err =
        apply_connection_update(vec![conn("a", "mysql")], "a", None, Some(&bad)).unwrap_err();
    assert_eq!(err, "Missing host for MySQL connection");
    let bad = serde_json::from_str::<serde_json::Value>(r#"{"host":"h"}"#).unwrap();
    let err =
        apply_connection_update(vec![conn("a", "postgres")], "a", None, Some(&bad)).unwrap_err();
    assert_eq!(err, "Missing port for PostgreSQL connection");
}

#[test]
fn decimal_rendering() {
    assert_eq!(u64_to_dec(0), "0");
    assert_eq!(u64_to_dec(7), "7");
    assert_eq!(u64_to_dec(65535), "65535");
    assert_eq!(u64_to_dec(1000000), "1000000");
}

#[test]
fn string_helpers() {
    assert!(str_eq("abc", "abc"));
    assert!(!str_eq("abc", "abd"));
    assert_eq!(escape_doubling("a'b''c", '\''), "a''b''''c");
    assert_eq!(escape_doubling("plain", '`'), "plain");
    assert_eq!(trim_sql("  \t SELECT 1 \n"), "SELECT 1");
    assert_eq!(trim_sql(""), "");
    assert_eq!(strip_trailing_char("stmt;;;", ';'), "stmt");
    assert_eq!(strip_trailing_char(";keep;inner; ", ';'), ";keep;inner; ");
}

#[test]
fn keyword_search_is_case_insensitive() {
    assert!(starts_with_keyword("select 1", "select", "SELECT"));
    assert!(starts_with_keyword("SeLeCt 1", "select", "SELECT"));
    assert!(!starts_with_keyword(" select", "select", "SELECT"));
    assert!(!starts_with_keyword("sel", "select", "SELECT"));
    assert!(contains_keyword("a LiMiT 5", "limit", "LIMIT"));
    assert!(!contains_keyword("no bound at all", "limit", "LIMIT"));
    assert!(contains_keyword("extra auto_increment flag", "auto_increment", "auto_increment"));
}
