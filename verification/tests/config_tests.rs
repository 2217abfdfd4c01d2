use dbdesk::config::{parse_connection_config, ConfigError, ConnectionConfig};

fn bag(json: &str) -> serde_json::Value {
    serde_json::from_str::<serde_json::Value>(json).unwrap()
}

#[test]
fn sqlite_config_parses() {
    let v = bag(r#"{"filepath": "/tmp/data.db"}"#);
    let cfg = parse_connection_config("sqlite", &v).unwrap();
    assert!(matches!(cfg, ConnectionConfig::Sqlite { ref filepath } if filepath == "/tmp/data.db"));
}

#[test]
fn sqlite_missing_filepath_names_field() {
    let v = bag(r#"{}"#);
    let err = parse_connection_config("sqlite", &v).unwrap_err();
    match &err {
        ConfigError::MissingField { engine, field } => {
            assert_eq!(engine, "SQLite");
            assert_eq!(field, "filepath");
        }
        _ => panic!("expected MissingField"),
    }
    assert_eq!(err.message(), "Missing filepath for SQLite connection");
}

#[test]
fn mysql_config_parses_fully() {
    let v = bag(
        r#"{"host":"db.example","port":3307,"user":"root","password":"pw","database":"shop","ssl":true}"#,
    );
    match parse_connection_config("mysql", &v).unwrap() {
        ConnectionConfig::Mysql { host, port, user, password, database, ssl } => {
            assert_eq!(host, "db.example");
            assert_eq!(port, 3307);
            assert_eq!(user, "root");
            assert_eq!(password, "pw");
            assert_eq!(database.as_deref(), Some("shop"));
            assert!(ssl);
        }
        _ => panic!("expected Mysql"),
    }
}

#[test]
fn mysql_missing_each_required_field_is_named() {
    let cases = [
        (r#"{"port":3306,"user":"u","password":"p"}"#, "host"),
        (r#"{"host":"h","user":"u","password":"p"}"#, "port"),
        (r#"{"host":"h","port":3306,"password":"p"}"#, "user"),
        (r#"{"host":"h","port":3306,"user":"u"}"#, "password"),
    ];
    for (json, field) in cases {
        let v = bag(json);
        let err = parse_connection_config("mysql", &v).unwrap_err();
        match &err {
            ConfigError::MissingField { engine, field: f } => {
                assert_eq!(engine, "MySQL");
                assert_eq!(f, field);
            }
            _ => panic!("expected MissingField for {field}"),
        }
    }
}

#[test]
fn postgres_and_mssql_missing_host_name_their_engine() {
    let v = bag(r#"{"port":1,"user":"u","password":"p"}"#);
    let err = parse_connection_config("postgres", &v).unwrap_err();
    assert_eq!(err.message(), "Missing host for PostgreSQL connection");
    let err = parse_connection_config("mssql", &v).unwrap_err();
    assert_eq!(err.message(), "Missing host for MSSQL connection");
}

#[test]
fn mistyped_field_counts_as_missing() {
    // a numeric host does not decode as a string
    let v = bag(r#"{"host":123,"port":5432,"user":"u","password":"p"}"#);
    let err = parse_connection_config("postgres", &v).unwrap_err();
    assert_eq!(err.message(), "Missing host for PostgreSQL connection");
    // a string port does not decode as an unsigned integer
    let v = bag(r#"{"host":"h","port":"5432","user":"u","password":"p"}"#);
    let err = parse_connection_config("postgres", &v).unwrap_err();
    assert_eq!(err.message(), "Missing port for PostgreSQL connection");
    // a negative port does not decode as an unsigned integer
    let v = bag(r#"{"host":"h","port":-1,"user":"u","password":"p"}"#);
    let err = parse_connection_config("postgres", &v).unwrap_err();
    assert_eq!(err.message(), "Missing port for PostgreSQL connection");
}

#[test]
fn optional_fields_take_documented_defaults() {
    let v = bag(r#"{"host":"h","port":3306,"user":"u","password":"p"}"#);
    match parse_connection_config("mysql", &v).unwrap() {
        ConnectionConfig::Mysql { database, ssl, .. } => {
            assert_eq!(database, None);
            assert!(!ssl, "unspecified tls flag must default to disabled");
        }
        _ => panic!("expected Mysql"),
    }
    // a mistyped ssl flag also falls back to disabled
    let v = bag(r#"{"host":"h","port":3306,"user":"u","password":"p","ssl":"yes"}"#);
    match parse_connection_config("mysql", &v).unwrap() {
        ConnectionConfig::Mysql { ssl, .. } => assert!(!ssl),
        _ => panic!("expected Mysql"),
    }
}

#[test]
fn oversized_port_keeps_low_sixteen_bits() {
    let v = bag(r#"{"host":"h","port":70000,"user":"u","password":"p"}"#);
    match parse_connection_config("mysql", &v).unwrap() {
        ConnectionConfig::Mysql { port, .. } => assert_eq!(port, 70000u32 as u16),
        _ => panic!("expected Mysql"),
    }
}

#[test]
fn unsupported_engine_kind_is_rejected() {
    let v = bag(r#"{"host":"h","port":1,"user":"u","password":"p"}"#);
    let err = parse_connection_config("unsupported_engine", &v).unwrap_err();
    match &err {
        ConfigError::UnsupportedEngine { kind } => assert_eq!(kind, "unsupported_engine"),
        _ => panic!("expected UnsupportedEngine"),
    }
    assert_eq!(err.message(), "Unsupported database type: unsupported_engine");
}

#[test]
fn unsupported_engine_mutates_no_pool_state() {
    let manager: dbdesk::pool::PoolManager<u32> = dbdesk::pool::PoolManager::new();
    let v = bag(r#"{"whatever": 1}"#);
    assert!(parse_connection_config("unsupported_engine", &v).is_err());
    assert!(manager.cached_pool("any", None).is_none());
}
