//! Engine configuration model: the tagged union of per-engine parameters
//! and the decoder that turns an engine kind plus a loosely-typed parameter
//! bag into exactly one variant. Required fields that are absent or of the
//! wrong shape are rejected with an error naming the field and the engine;
//! unknown engine kinds are rejected as unsupported.

use vstd::prelude::*;
use vstd::string::StringExecFns;
use crate::json::JsonField;
use crate::json::json_field_bool;
use crate::json::json_field_str;
use crate::json::json_field_u64;
use crate::json::json_fields;
use crate::json::spec_field_bool;
use crate::json::spec_field_str;
use crate::json::spec_field_u64;
use crate::strutil::str_eq;

verus! {

/// A `Result` seen through the views of its two payloads.
pub open spec fn res_view<A: View, B: View>(r: Result<A, B>) -> Result<A::V, B::V> {
    match r {
        Ok(a) => Ok(a@),
        Err(e) => Err(e@),
    }
}

/// Engine-specific parameters of one registered connection.
#[derive(Debug)]
pub enum ConnectionConfig {
    Sqlite { filepath: String },
    Mysql {
        host: String,
        port: u16,
        user: String,
        password: String,
        database: Option<String>,
        ssl: bool,
    },
    Postgres {
        host: String,
        port: u16,
        user: String,
        password: String,
        database: Option<String>,
        ssl: bool,
    },
    Mssql {
        host: String,
        port: u16,
        user: String,
        password: String,
        database: Option<String>,
        ssl: bool,
    },
}

/// The mathematical shape of a `ConnectionConfig`.
pub enum ConfigV {
    Sqlite { filepath: Seq<char> },
    Mysql {
        host: Seq<char>,
        port: u16,
        user: Seq<char>,
        password: Seq<char>,
        database: Option<Seq<char>>,
        ssl: bool,
    },
    Postgres {
        host: Seq<char>,
        port: u16,
        user: Seq<char>,
        password: Seq<char>,
        database: Option<Seq<char>>,
        ssl: bool,
    },
    Mssql {
        host: Seq<char>,
        port: u16,
        user: Seq<char>,
        password: Seq<char>,
        database: Option<Seq<char>>,
        ssl: bool,
    },
}

pub open spec fn opt_str_view(o: Option<String>) -> Option<Seq<char>> {
    match o {
        Some(s) => Some(s@),
        None => None,
    }
}

impl View for ConnectionConfig {
    type V = ConfigV;

    open spec fn view(&self) -> ConfigV {
        match self {
            ConnectionConfig::Sqlite { filepath } => ConfigV::Sqlite { filepath: filepath@ },
            ConnectionConfig::Mysql { host, port, user, password, database, ssl } => ConfigV::Mysql {
                host: host@,
                port: *port,
                user: user@,
                password: password@,
                database: opt_str_view(*database),
                ssl: *ssl,
            },
            ConnectionConfig::Postgres { host, port, user, password, database, ssl } => ConfigV::Postgres {
                host: host@,
                port: *port,
                user: user@,
                password: password@,
                database: opt_str_view(*database),
                ssl: *ssl,
            },
            ConnectionConfig::Mssql { host, port, user, password, database, ssl } => ConfigV::Mssql {
                host: host@,
                port: *port,
                user: user@,
                password: password@,
                database: opt_str_view(*database),
                ssl: *ssl,
            },
        }
    }
}

/// A rejected configuration: a required field that is absent (or not of the
/// required shape) for the named engine, or an engine kind that no engine
/// implements.
#[derive(Debug)]
pub enum ConfigError {
    MissingField { engine: String, field: String },
    UnsupportedEngine { kind: String },
}

/// The mathematical shape of a `ConfigError`.
pub enum ConfigErrorV {
    MissingField { engine: Seq<char>, field: Seq<char> },
    UnsupportedEngine { kind: Seq<char> },
}

impl View for ConfigError {
    type V = ConfigErrorV;

    open spec fn view(&self) -> ConfigErrorV {
        match self {
            ConfigError::MissingField { engine, field } => ConfigErrorV::MissingField {
                engine: engine@,
                field: field@,
            },
            ConfigError::UnsupportedEngine { kind } => ConfigErrorV::UnsupportedEngine {
                kind: kind@,
            },
        }
    }
}

/// The single descriptive line that a rejected configuration surfaces.
pub open spec fn spec_config_error_message(e: ConfigErrorV) -> Seq<char> {
    match e {
        ConfigErrorV::MissingField { engine, field } => "Missing "@ + field + " for "@ + engine
            + " connection"@,
        ConfigErrorV::UnsupportedEngine { kind } => "Unsupported database type: "@ + kind,
    }
}

impl ConfigError {
    /// Renders the error as its descriptive line.
    pub fn message(&self) -> (r: String)
        ensures
            r@ == spec_config_error_message(self@),
    {
        match self {
            ConfigError::MissingField { engine, field } => {
                let mut m: String = "Missing ".to_owned();
                m.append(field.as_str());
                m.append(" for ");
                m.append(engine.as_str());
                m.append(" connection");
                m
            },
            ConfigError::UnsupportedEngine { kind } => {
                let mut m: String = "Unsupported database type: ".to_owned();
                m.append(kind.as_str());
                m
            },
        }
    }
}

/// The parameters shared by the three network engines.
#[derive(Debug)]
pub struct NetParams {
    pub host: String,
    pub port: u16,
    pub user: String,
    pub password: String,
    pub database: Option<String>,
    pub ssl: bool,
}

/// The mathematical shape of `NetParams`.
pub struct NetParamsV {
    pub host: Seq<char>,
    pub port: u16,
    pub user: Seq<char>,
    pub password: Seq<char>,
    pub database: Option<Seq<char>>,
    pub ssl: bool,
}

impl View for NetParams {
    type V = NetParamsV;

    open spec fn view(&self) -> NetParamsV {
        NetParamsV {
            host: self.host@,
            port: self.port,
            user: self.user@,
            password: self.password@,
            database: opt_str_view(self.database),
            ssl: self.ssl,
        }
    }
}

/// Decoding of the fields shared by the network engines, in the order the
/// decoder checks them: host, port, user and password are required;
/// database is optional; an absent or mistyped tls flag defaults to
/// disabled. A port above the 16-bit range keeps its low 16 bits.
pub open spec fn spec_parse_net(engine: Seq<char>, f: Map<Seq<char>, JsonField>) -> Result<
    NetParamsV,
    ConfigErrorV,
> {
    if spec_field_str(f, "host"@) is None {
        Err(ConfigErrorV::MissingField { engine, field: "host"@ })
    } else if spec_field_u64(f, "port"@) is None {
        Err(ConfigErrorV::MissingField { engine, field: "port"@ })
    } else if spec_field_str(f, "user"@) is None {
        Err(ConfigErrorV::MissingField { engine, field: "user"@ })
    } else if spec_field_str(f, "password"@) is None {
        Err(ConfigErrorV::MissingField { engine, field: "password"@ })
    } else {
        Ok(
            NetParamsV {
                host: spec_field_str(f, "host"@).unwrap(),
                port: (spec_field_u64(f, "port"@).unwrap() % 0x10000) as u16,
                user: spec_field_str(f, "user"@).unwrap(),
                password: spec_field_str(f, "password"@).unwrap(),
                database: spec_field_str(f, "database"@),
                ssl: spec_field_bool(f, "ssl"@).unwrap_or(false),
            },
        )
    }
}

/// Decoding of an engine kind plus parameter bag into one configuration
/// variant, exactly as `parse_connection_config` performs it.
pub open spec fn spec_parse_config(kind: Seq<char>, f: Map<Seq<char>, JsonField>) -> Result<
    ConfigV,
    ConfigErrorV,
> {
    if kind == "sqlite"@ {
        match spec_field_str(f, "filepath"@) {
            Some(p) => Ok(ConfigV::Sqlite { filepath: p }),
            None => Err(ConfigErrorV::MissingField { engine: "SQLite"@, field: "filepath"@ }),
        }
    } else if kind == "mysql"@ {
        match spec_parse_net("MySQL"@, f) {
            Ok(p) => Ok(
                ConfigV::Mysql {
                    host: p.host,
                    port: p.port,
                    user: p.user,
                    password: p.password,
                    database: p.database,
                    ssl: p.ssl,
                },
            ),
            Err(e) => Err(e),
        }
    } else if kind == "postgres"@ {
        match spec_parse_net("PostgreSQL"@, f) {
            Ok(p) => Ok(
                ConfigV::Postgres {
                    host: p.host,
                    port: p.port,
                    user: p.user,
                    password: p.password,
                    database: p.database,
                    ssl: p.ssl,
                },
            ),
            Err(e) => Err(e),
        }
    } else if kind == "mssql"@ {
        match spec_parse_net("MSSQL"@, f) {
            Ok(p) => Ok(
                ConfigV::Mssql {
                    host: p.host,
                    port: p.port,
                    user: p.user,
                    password: p.password,
                    database: p.database,
                    ssl: p.ssl,
                },
            ),
            Err(e) => Err(e),
        }
    } else {
        Err(ConfigErrorV::UnsupportedEngine { kind })
    }
}

fn parse_net_params(config: &serde_json::Value, engine: &str) -> (r: Result<NetParams, ConfigError>)
    ensures
        res_view(r) == spec_parse_net(engine@, json_fields(*config)),
{
    let host = match json_field_str(config, "host") {
        Some(h) => h,
        None => {
            return Err(
                ConfigError::MissingField { engine: engine.to_owned(), field: "host".to_owned() },
            );
        },
    };
    let port_raw = match json_field_u64(config, "port") {
        Some(p) => p,
        None => {
            return Err(
                ConfigError::MissingField { engine: engine.to_owned(), field: "port".to_owned() },
            );
        },
    };
    let user = match json_field_str(config, "user") {
        Some(u) => u,
        None => {
            return Err(
                ConfigError::MissingField { engine: engine.to_owned(), field: "user".to_owned() },
            );
        },
    };
    let password = match json_field_str(config, "password") {
        Some(p) => p,
        None => {
            return Err(
                ConfigError::MissingField {
                    engine: engine.to_owned(),
                    field: "password".to_owned(),
                },
            );
        },
    };
    let database = json_field_str(config, "database");
    let ssl = match json_field_bool(config, "ssl") {
        Some(b) => b,
        None => false,
    };
    Ok(NetParams { host, port: (port_raw % 0x10000) as u16, user, password, database, ssl })
}

/// Decodes an engine kind plus parameter bag into exactly one
/// `ConnectionConfig` variant, per `spec_parse_config`: required fields
/// that are absent or mistyped yield `ConfigError::MissingField` naming the
/// field and the engine; an unknown kind yields
/// `ConfigError::UnsupportedEngine`.
pub fn parse_connection_config(db_type: &str, config: &serde_json::Value) -> (r: Result<
    ConnectionConfig,
    ConfigError,
>)
    ensures
        res_view(r) == spec_parse_config(db_type@, json_fields(*config)),
{
    if str_eq(db_type, "sqlite") {
        match json_field_str(config, "filepath") {
            Some(filepath) => Ok(ConnectionConfig::Sqlite { filepath }),
            None => Err(
                ConfigError::MissingField {
                    engine: "SQLite".to_owned(),
                    field: "filepath".to_owned(),
                },
            ),
        }
    } else if str_eq(db_type, "mysql") {
        match parse_net_params(config, "MySQL") {
            Ok(p) => Ok(
                ConnectionConfig::Mysql {
                    host: p.host,
                    port: p.port,
                    user: p.user,
                    password: p.password,
                    database: p.database,
                    ssl: p.ssl,
                },
            ),
            Err(e) => Err(e),
        }
    } else if str_eq(db_type, "postgres") {
        match parse_net_params(config, "PostgreSQL") {
            Ok(p) => Ok(
                ConnectionConfig::Postgres {
                    host: p.host,
                    port: p.port,
                    user: p.user,
                    password: p.password,
                    database: p.database,
                    ssl: p.ssl,
                },
            ),
            Err(e) => Err(e),
        }
    } else if str_eq(db_type, "mssql") {
        match parse_net_params(config, "MSSQL") {
            Ok(p) => Ok(
                ConnectionConfig::Mssql {
                    host: p.host,
                    port: p.port,
                    user: p.user,
                    password: p.password,
                    database: p.database,
                    ssl: p.ssl,
                },
            ),
            Err(e) => Err(e),
        }
    } else {
        Err(ConfigError::UnsupportedEngine { kind: db_type.to_owned() })
    }
}

/// The engine kinds the decoder implements.
pub open spec fn spec_supported_kind(kind: Seq<char>) -> bool {
    kind == "sqlite"@ || kind == "mysql"@ || kind == "postgres"@ || kind == "mssql"@
}

/// The required fields of a supported engine kind, in the order the
/// decoder checks them.
pub open spec fn spec_required_fields(kind: Seq<char>) -> Seq<Seq<char>> {
    if kind == "sqlite"@ {
        seq!["filepath"@]
    } else {
        seq!["host"@, "port"@, "user"@, "password"@]
    }
}

/// Whether a required field is present with its required shape: the port
/// as an unsigned integer, every other required field as a string.
pub open spec fn spec_required_present(f: Map<Seq<char>, JsonField>, name: Seq<char>) -> bool {
    if name == "port"@ {
        spec_field_u64(f, name) is Some
    } else {
        spec_field_str(f, name) is Some
    }
}

/// Law: for every supported engine kind, a parameter bag that lacks a
/// required field (or holds it with the wrong shape) is rejected with a
/// `MissingField` error, and the field the error names is itself a
/// required field that is missing — never a panic, never a silent
/// default. (The documented optional fields are the subject of
/// `lemma_optional_fields_default`.)
pub proof fn lemma_missing_required_field(kind: Seq<char>, f: Map<Seq<char>, JsonField>)
    requires
        spec_supported_kind(kind),
        exists|i: int|
            0 <= i < spec_required_fields(kind).len() && !spec_required_present(
                f,
                spec_required_fields(kind)[i],
            ),
    ensures
        spec_parse_config(kind, f) is Err,
        spec_parse_config(kind, f)->Err_0 is MissingField,
        spec_required_fields(kind).contains(
            spec_parse_config(kind, f)->Err_0->MissingField_field,
        ),
        !spec_required_present(f, spec_parse_config(kind, f)->Err_0->MissingField_field),
{
    reveal_strlit("sqlite");
    reveal_strlit("mysql");
    reveal_strlit("postgres");
    reveal_strlit("mssql");
    reveal_strlit("filepath");
    reveal_strlit("host");
    reveal_strlit("port");
    reveal_strlit("user");
    reveal_strlit("password");
    assert("sqlite"@.len() == 6 && "mysql"@.len() == 5 && "postgres"@.len() == 8 && "mssql"@.len()
        == 5);
    assert("filepath"@[0] == 'f' && "host"@[0] == 'h' && "port"@[0] == 'p' && "user"@[0] == 'u'
        && "password"@.len() == 8);
    assert("filepath"@ != "port"@ && "host"@ != "port"@ && "user"@ != "port"@ && "password"@
        != "port"@);
    let req = spec_required_fields(kind);
    if kind == "sqlite"@ {
        let i = choose|i: int| 0 <= i < req.len() && !spec_required_present(f, req[i]);
        assert(req[i] == "filepath"@);
        assert(spec_field_str(f, "filepath"@) is None);
        assert(req[0] == "filepath"@);
    } else {
        assert(req[0] == "host"@ && req[1] == "port"@ && req[2] == "user"@ && req[3]
            == "password"@);
        if spec_field_str(f, "host"@) is None {
            assert(!spec_required_present(f, "host"@));
        } else if spec_field_u64(f, "port"@) is None {
            assert(!spec_required_present(f, "port"@));
        } else if spec_field_str(f, "user"@) is None {
            assert(!spec_required_present(f, "user"@));
        } else if spec_field_str(f, "password"@) is None {
            assert(!spec_required_present(f, "password"@));
        } else {
            let i = choose|i: int| 0 <= i < req.len() && !spec_required_present(f, req[i]);
            assert(spec_required_present(f, req[0]));
            assert(spec_required_present(f, req[1]));
            assert(spec_required_present(f, req[2]));
            assert(spec_required_present(f, req[3]));
            assert(false);
        }
    }
}

/// Law: the documented optional fields default instead of failing: with
/// every required field present, an absent tls flag decodes as disabled
/// and an absent database name as none selected.
pub proof fn lemma_optional_fields_default(kind: Seq<char>, f: Map<Seq<char>, JsonField>)
    requires
        kind == "mysql"@ || kind == "postgres"@ || kind == "mssql"@,
        spec_field_str(f, "host"@) is Some,
        spec_field_u64(f, "port"@) is Some,
        spec_field_str(f, "user"@) is Some,
        spec_field_str(f, "password"@) is Some,
        spec_field_bool(f, "ssl"@) is None,
        spec_field_str(f, "database"@) is None,
    ensures
        spec_parse_config(kind, f) is Ok,
        match spec_parse_config(kind, f)->Ok_0 {
            ConfigV::Mysql { ssl, database, .. } => !ssl && database is None,
            ConfigV::Postgres { ssl, database, .. } => !ssl && database is None,
            ConfigV::Mssql { ssl, database, .. } => !ssl && database is None,
            ConfigV::Sqlite { .. } => false,
        },
{
    reveal_strlit("sqlite");
    reveal_strlit("mysql");
    reveal_strlit("postgres");
    reveal_strlit("mssql");
    assert("sqlite"@.len() == 6 && "mysql"@.len() == 5 && "postgres"@.len() == 8 && "mssql"@.len()
        == 5);
    assert("mysql"@ != "sqlite"@ && "postgres"@ != "sqlite"@ && "mssql"@ != "sqlite"@);
    assert("mysql"@[1] == 'y' && "mssql"@[1] == 's');
    assert("mysql"@ != "mssql"@ && "postgres"@ != "mysql"@);
}

} // verus!
