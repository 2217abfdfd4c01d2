//! Connection string construction: what each engine's client needs to
//! open a handle, built from a configuration plus an optional
//! database-name override. Construction is pure except for
//! the file engine, whose target file is checked for existence up front so
//! that a missing file fails fast with its own message instead of a late,
//! unspecific connect failure.

use vstd::prelude::*;
use vstd::string::StringExecFns;
use crate::config::ConfigV;
use crate::config::ConnectionConfig;
use crate::strutil::dec_rep;
use crate::strutil::u64_to_dec;

verus! {

/// An optional borrowed string, seen as an optional character sequence.
pub open spec fn opt_sref_view(o: Option<&str>) -> Option<Seq<char>> {
    match o {
        Some(s) => Some(s@),
        None => None,
    }
}

/// The database-name override takes precedence over the configuration's
/// own database field.
pub open spec fn spec_resolve_db(
    override_db: Option<Seq<char>>,
    config_db: Option<Seq<char>>,
) -> Option<Seq<char>> {
    match override_db {
        Some(d) => Some(d),
        None => config_db,
    }
}

/// The `/name` path segment of a URL-style connection string, empty when
/// no database is selected.
pub open spec fn spec_db_part(db: Option<Seq<char>>) -> Seq<char> {
    match db {
        Some(d) => "/"@ + d,
        None => Seq::empty(),
    }
}

pub open spec fn spec_mysql_ssl(ssl: bool) -> Seq<char> {
    if ssl {
        "?ssl-mode=REQUIRED"@
    } else {
        "?ssl-mode=DISABLED"@
    }
}

pub open spec fn spec_postgres_ssl(ssl: bool) -> Seq<char> {
    if ssl {
        "?sslmode=require"@
    } else {
        "?sslmode=disable"@
    }
}

pub open spec fn spec_sqlite_url(filepath: Seq<char>) -> Seq<char> {
    "sqlite://"@ + filepath
}

pub open spec fn spec_mysql_url(
    host: Seq<char>,
    port: u16,
    user: Seq<char>,
    password: Seq<char>,
    db: Option<Seq<char>>,
    ssl: bool,
) -> Seq<char> {
    "mysql://"@ + user + ":"@ + password + "@"@ + host + ":"@ + dec_rep(port as nat)
        + spec_db_part(db) + spec_mysql_ssl(ssl)
}

pub open spec fn spec_postgres_url(
    host: Seq<char>,
    port: u16,
    user: Seq<char>,
    password: Seq<char>,
    db: Option<Seq<char>>,
    ssl: bool,
) -> Seq<char> {
    "postgres://"@ + user + ":"@ + password + "@"@ + host + ":"@ + dec_rep(port as nat)
        + spec_db_part(db) + spec_postgres_ssl(ssl)
}

/// The reference form for the engine without a string-based client; its
/// database selection is a `;database=` suffix.
pub open spec fn spec_mssql_url(
    host: Seq<char>,
    port: u16,
    user: Seq<char>,
    password: Seq<char>,
    db: Option<Seq<char>>,
) -> Seq<char> {
    "mssql://"@ + user + ":"@ + password + "@"@ + host + ":"@ + dec_rep(port as nat) + (match db {
        Some(d) => ";database="@ + d,
        None => Seq::<char>::empty(),
    })
}

fn url_head(scheme_prefix: &str, user: &str, password: &str, host: &str, port: u16) -> (r: String)
    ensures
        r@ == scheme_prefix@ + user@ + ":"@ + password@ + "@"@ + host@ + ":"@ + dec_rep(
            port as nat,
        ),
{
    let mut s: String = scheme_prefix.to_owned();
    s.append(user);
    s.append(":");
    s.append(password);
    s.append("@");
    s.append(host);
    s.append(":");
    let p = u64_to_dec(port as u64);
    s.append(p.as_str());
    proof {
        assert(s@ =~= scheme_prefix@ + user@ + ":"@ + password@ + "@"@ + host@ + ":"@ + dec_rep(
            port as nat,
        ));
    }
    s
}

/// Builds the connection string for the first network engine.
pub fn mysql_url(
    host: &str,
    port: u16,
    user: &str,
    password: &str,
    database: Option<&str>,
    ssl: bool,
) -> (r: String)
    ensures
        r@ == spec_mysql_url(host@, port, user@, password@, opt_sref_view(database), ssl),
{
    let mut s = url_head("mysql://", user, password, host, port);
    match database {
        Some(d) => {
            s.append("/");
            s.append(d);
        },
        None => {},
    }
    if ssl {
        s.append("?ssl-mode=REQUIRED");
    } else {
        s.append("?ssl-mode=DISABLED");
    }
    proof {
        assert(s@ =~= spec_mysql_url(host@, port, user@, password@, opt_sref_view(database), ssl));
    }
    s
}

/// Builds the connection string for the second network engine.
pub fn postgres_url(
    host: &str,
    port: u16,
    user: &str,
    password: &str,
    database: Option<&str>,
    ssl: bool,
) -> (r: String)
    ensures
        r@ == spec_postgres_url(host@, port, user@, password@, opt_sref_view(database), ssl),
{
    let mut s = url_head("postgres://", user, password, host, port);
    match database {
        Some(d) => {
            s.append("/");
            s.append(d);
        },
        None => {},
    }
    if ssl {
        s.append("?sslmode=require");
    } else {
        s.append("?sslmode=disable");
    }
    proof {
        assert(s@ =~= spec_postgres_url(
            host@,
            port,
            user@,
            password@,
            opt_sref_view(database),
            ssl,
        ));
    }
    s
}

/// Builds the reference string for the protocol engine.
pub fn mssql_url(
    host: &str,
    port: u16,
    user: &str,
    password: &str,
    database: Option<&str>,
) -> (r: String)
    ensures
        r@ == spec_mssql_url(host@, port, user@, password@, opt_sref_view(database)),
{
    let mut s = url_head("mssql://", user, password, host, port);
    match database {
        Some(d) => {
            s.append(";database=");
            s.append(d);
        },
        None => {},
    }
    proof {
        assert(s@ =~= spec_mssql_url(host@, port, user@, password@, opt_sref_view(database)));
    }
    s
}

/// The connection string that a configuration yields when construction
/// succeeds, with the configuration's own database field selected.
pub open spec fn spec_test_connection_string(c: ConfigV) -> Seq<char> {
    match c {
        ConfigV::Sqlite { filepath } => spec_sqlite_url(filepath),
        ConfigV::Mysql { host, port, user, password, database, ssl } => spec_mysql_url(
            host,
            port,
            user,
            password,
            database,
            ssl,
        ),
        ConfigV::Postgres { host, port, user, password, database, ssl } => spec_postgres_url(
            host,
            port,
            user,
            password,
            database,
            ssl,
        ),
        ConfigV::Mssql { host, port, user, password, database, ssl: _ } => spec_mssql_url(
            host,
            port,
            user,
            password,
            database,
        ),
    }
}

/// The file-missing message that the file engine fails fast with.
pub open spec fn spec_missing_file_message(filepath: Seq<char>) -> Seq<char> {
    "SQLite \u{6587}\u{4ef6}\u{4e0d}\u{5b58}\u{5728}: "@ + filepath
}

fn opt_str_as_deref(o: &Option<String>) -> (r: Option<&str>)
    ensures
        opt_sref_view(r) == crate::config::opt_str_view(*o),
{
    match o {
        Some(s) => Some(s.as_str()),
        None => None,
    }
}

/// Pure core of `get_connection_string_for_test`: the same construction,
/// with the file engine's file-existence probe supplied as an argument.
/// Only a file configuration whose file is absent is rejected.
pub fn connection_string_given(config: &ConnectionConfig, sqlite_file_present: bool) -> (r: Result<
    String,
    String,
>)
    ensures
        match r {
            Ok(s) => (config@ is Sqlite ==> sqlite_file_present) && s@
                == spec_test_connection_string(config@),
            Err(e) => config@ is Sqlite && !sqlite_file_present && e@
                == spec_missing_file_message(config@->Sqlite_filepath),
        },
{
    match config {
        ConnectionConfig::Sqlite { filepath } => {
            if !sqlite_file_present {
                let mut m: String = "SQLite \u{6587}\u{4ef6}\u{4e0d}\u{5b58}\u{5728}: ".to_owned();
                m.append(filepath.as_str());
                Err(m)
            } else {
                let mut s: String = "sqlite://".to_owned();
                s.append(filepath.as_str());
                Ok(s)
            }
        },
        ConnectionConfig::Mysql { host, port, user, password, database, ssl } => {
            let db = opt_str_as_deref(database);
            Ok(mysql_url(host.as_str(), *port, user.as_str(), password.as_str(), db, *ssl))
        },
        ConnectionConfig::Postgres { host, port, user, password, database, ssl } => {
            let db = opt_str_as_deref(database);
            Ok(postgres_url(host.as_str(), *port, user.as_str(), password.as_str(), db, *ssl))
        },
        ConnectionConfig::Mssql { host, port, user, password, database, ssl: _ } => {
            let db = opt_str_as_deref(database);
            Ok(mssql_url(host.as_str(), *port, user.as_str(), password.as_str(), db))
        },
    }
}

/// Relies on std's `Path::exists` (via `Path::new`): whether the path
/// names an existing filesystem entry at the moment of the call.
#[verifier::external_body]
fn path_exists(path: &str) -> bool {
    std::path::Path::new(path).exists()
}

/// Builds the connection string used to test a configuration before it is
/// saved. For the file engine the target file is probed on disk first:
/// whatever that probe reports, a rejection carries the file-missing
/// message and a success carries the exact per-engine string; for every
/// other engine construction always succeeds.
pub fn get_connection_string_for_test(config: &ConnectionConfig) -> (r: Result<String, String>)
    ensures
        match r {
            Ok(s) => s@ == spec_test_connection_string(config@),
            Err(e) => config@ is Sqlite && e@ == spec_missing_file_message(
                config@->Sqlite_filepath,
            ),
        },
        !(config@ is Sqlite) ==> r is Ok,
{
    let file_present = match config {
        ConnectionConfig::Sqlite { filepath } => path_exists(filepath.as_str()),
        _ => true,
    };
    connection_string_given(config, file_present)
}

/// What the pool builder needs for one configuration: the connection
/// string with the override applied, with the file engine's construction
/// failing fast on a missing file and the uncached protocol engine
/// rejected with its documented message.
pub open spec fn spec_pool_connection_string(
    c: ConfigV,
    override_db: Option<Seq<char>>,
    sqlite_file_present: bool,
) -> Result<Seq<char>, Seq<char>> {
    match c {
        ConfigV::Sqlite { filepath } => if sqlite_file_present {
            Ok(spec_sqlite_url(filepath))
        } else {
            Err(spec_missing_file_message(filepath))
        },
        ConfigV::Mysql { host, port, user, password, database, ssl } => Ok(
            spec_mysql_url(host, port, user, password, spec_resolve_db(override_db, database), ssl),
        ),
        ConfigV::Postgres { host, port, user, password, database, ssl } => Ok(
            spec_postgres_url(
                host,
                port,
                user,
                password,
                spec_resolve_db(override_db, database),
                ssl,
            ),
        ),
        ConfigV::Mssql { .. } => Err("MSSQL pool management not yet implemented"@),
    }
}

/// Pure core of `pool_connection_string`: the same construction, with the
/// file engine's file-existence probe supplied as an argument.
pub fn pool_connection_string_given(
    config: &ConnectionConfig,
    database: Option<&str>,
    sqlite_file_present: bool,
) -> (r: Result<String, String>)
    ensures
        res_str_view(r) == spec_pool_connection_string(
            config@,
            opt_sref_view(database),
            sqlite_file_present,
        ),
{
    match config {
        ConnectionConfig::Sqlite { filepath } => {
            if !sqlite_file_present {
                let mut m: String = "SQLite \u{6587}\u{4ef6}\u{4e0d}\u{5b58}\u{5728}: ".to_owned();
                m.append(filepath.as_str());
                Err(m)
            } else {
                let mut s: String = "sqlite://".to_owned();
                s.append(filepath.as_str());
                Ok(s)
            }
        },
        ConnectionConfig::Mysql { host, port, user, password, database: config_db, ssl } => {
            let db = resolve_db(database, config_db);
            Ok(mysql_url(host.as_str(), *port, user.as_str(), password.as_str(), db, *ssl))
        },
        ConnectionConfig::Postgres { host, port, user, password, database: config_db, ssl } => {
            let db = resolve_db(database, config_db);
            Ok(postgres_url(host.as_str(), *port, user.as_str(), password.as_str(), db, *ssl))
        },
        ConnectionConfig::Mssql { .. } => Err(
            "MSSQL pool management not yet implemented".to_owned(),
        ),
    }
}

/// Builds the connection string for a pooled handle, the database-name
/// override taking precedence over the configuration's own database
/// field. As for the ephemeral test path, the file engine's target file
/// is probed on disk at construction time: whatever the probe reports, a
/// rejection carries the file-missing message — kept distinct from any
/// later connect failure — and a success carries the exact per-engine
/// string. The protocol engine has no pooling support and is always
/// rejected with the documented message.
pub fn pool_connection_string(config: &ConnectionConfig, database: Option<&str>) -> (r: Result<
    String,
    String,
>)
    ensures
        match r {
            Ok(s) => Ok::<Seq<char>, Seq<char>>(s@) == spec_pool_connection_string(
                config@,
                opt_sref_view(database),
                true,
            ),
            Err(e) => (config@ is Sqlite && e@ == spec_missing_file_message(
                config@->Sqlite_filepath,
            )) || (config@ is Mssql && e@ == "MSSQL pool management not yet implemented"@),
        },
        config@ is Mysql || config@ is Postgres ==> r is Ok,
        config@ is Mssql ==> r is Err,
{
    let file_present = match config {
        ConnectionConfig::Sqlite { filepath } => path_exists(filepath.as_str()),
        _ => true,
    };
    pool_connection_string_given(config, database, file_present)
}

/// A `Result` of strings, seen through the views of both sides.
pub open spec fn res_str_view(r: Result<String, String>) -> Result<Seq<char>, Seq<char>> {
    match r {
        Ok(s) => Ok(s@),
        Err(e) => Err(e@),
    }
}

fn resolve_db<'a>(override_db: Option<&'a str>, config_db: &'a Option<String>) -> (r: Option<&'a str>)
    ensures
        opt_sref_view(r) == spec_resolve_db(
            opt_sref_view(override_db),
            crate::config::opt_str_view(*config_db),
        ),
{
    match override_db {
        Some(d) => Some(d),
        None => match config_db {
            Some(d) => Some(d.as_str()),
            None => None,
        },
    }
}

/// The localized success message that a configuration test reports for
/// each engine kind.
pub open spec fn spec_test_success_message(c: ConfigV) -> Seq<char> {
    match c {
        ConfigV::Sqlite { .. } => "SQLite \u{8fde}\u{63a5}\u{6210}\u{529f}"@,
        ConfigV::Mysql { .. } => "MySQL \u{8fde}\u{63a5}\u{6210}\u{529f}"@,
        ConfigV::Postgres { .. } => "PostgreSQL \u{8fde}\u{63a5}\u{6210}\u{529f}"@,
        ConfigV::Mssql { .. } => "MSSQL \u{8fde}\u{63a5}\u{6210}\u{529f}"@,
    }
}

/// The message reported when a configuration test succeeds.
pub fn test_success_message(config: &ConnectionConfig) -> (r: String)
    ensures
        r@ == spec_test_success_message(config@),
{
    match config {
        ConnectionConfig::Sqlite { .. } => "SQLite \u{8fde}\u{63a5}\u{6210}\u{529f}".to_owned(),
        ConnectionConfig::Mysql { .. } => "MySQL \u{8fde}\u{63a5}\u{6210}\u{529f}".to_owned(),
        ConnectionConfig::Postgres { .. } => "PostgreSQL \u{8fde}\u{63a5}\u{6210}\u{529f}".to_owned(),
        ConnectionConfig::Mssql { .. } => "MSSQL \u{8fde}\u{63a5}\u{6210}\u{529f}".to_owned(),
    }
}

} // verus!
