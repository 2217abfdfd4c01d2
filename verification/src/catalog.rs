//! Schema introspection: the engine-native catalog statements for listing
//! databases and tables and describing a table's columns, and the mapping
//! of each engine's catalog rows into one uniform column descriptor.
//! Identifiers interpolated into catalog SQL are escaped by that engine's
//! quoting rule first — doubling the quoting character — and are treated
//! as attacker-controllable even though the practical caller is a trusted
//! local user.

use vstd::prelude::*;
use vstd::string::StringExecFns;
use crate::config::opt_str_view;
use crate::connstr::opt_sref_view;
use crate::strutil::contains_keyword;
use crate::strutil::contains_kw;
use crate::strutil::escape_doubling;
use crate::strutil::escape_rep;
use crate::strutil::str_eq;

verus! {

/// One column of a described table, reported as the engine names it: no
/// cross-engine type normalization.
#[derive(Debug)]
pub struct ColumnInfo {
    pub name: String,
    pub data_type: String,
    pub nullable: bool,
    pub default: Option<String>,
    pub primary_key: bool,
    pub auto_increment: bool,
}

/// The mathematical shape of a `ColumnInfo`.
pub struct ColumnInfoV {
    pub name: Seq<char>,
    pub data_type: Seq<char>,
    pub nullable: bool,
    pub default: Option<Seq<char>>,
    pub primary_key: bool,
    pub auto_increment: bool,
}

impl View for ColumnInfo {
    type V = ColumnInfoV;

    open spec fn view(&self) -> ColumnInfoV {
        ColumnInfoV {
            name: self.name@,
            data_type: self.data_type@,
            nullable: self.nullable,
            default: opt_str_view(self.default),
            primary_key: self.primary_key,
            auto_increment: self.auto_increment,
        }
    }
}

/// The trivial round-trip statement used to health-check a pooled handle.
pub fn health_check_sql() -> (r: String)
    ensures
        r@ == "SELECT 1"@,
{
    "SELECT 1".to_owned()
}

/// The file engine's table listing, from its own master catalog.
pub fn sqlite_list_tables_sql() -> (r: String)
    ensures
        r@
            == "SELECT name FROM sqlite_master WHERE type='table' AND name NOT LIKE 'sqlite_%' ORDER BY name"@,
{
    "SELECT name FROM sqlite_master WHERE type='table' AND name NOT LIKE 'sqlite_%' ORDER BY name".to_owned()
}

pub fn mysql_list_databases_sql() -> (r: String)
    ensures
        r@ == "SHOW DATABASES"@,
{
    "SHOW DATABASES".to_owned()
}

pub fn postgres_list_databases_sql() -> (r: String)
    ensures
        r@
            == "SELECT datname FROM pg_database WHERE datistemplate = false ORDER BY datname"@,
{
    "SELECT datname FROM pg_database WHERE datistemplate = false ORDER BY datname".to_owned()
}

/// The protocol engine's database listing; system databases are excluded
/// by their low catalog ids.
pub fn mssql_list_databases_sql() -> (r: String)
    ensures
        r@ == "SELECT name FROM sys.databases WHERE database_id > 4 ORDER BY name"@,
{
    "SELECT name FROM sys.databases WHERE database_id > 4 ORDER BY name".to_owned()
}

/// The table listing of the first network engine, optionally scoped to
/// one database whose name is backtick-escaped.
pub open spec fn spec_mysql_list_tables_sql(db: Option<Seq<char>>) -> Seq<char> {
    match db {
        Some(d) => "SHOW TABLES FROM `"@ + escape_rep(d, '`') + "`"@,
        None => "SHOW TABLES"@,
    }
}

pub fn mysql_list_tables_sql(db: Option<&str>) -> (r: String)
    ensures
        r@ == spec_mysql_list_tables_sql(opt_sref_view(db)),
{
    match db {
        Some(d) => {
            let mut s: String = "SHOW TABLES FROM `".to_owned();
            let e = escape_doubling(d, '`');
            s.append(e.as_str());
            s.append("`");
            proof {
                assert(s@ =~= "SHOW TABLES FROM `"@ + escape_rep(d@, '`') + "`"@);
            }
            s
        },
        None => "SHOW TABLES".to_owned(),
    }
}

pub fn postgres_list_tables_sql() -> (r: String)
    ensures
        r@
            == "SELECT table_name FROM information_schema.tables WHERE table_schema = 'public' AND table_type = 'BASE TABLE' ORDER BY table_name"@,
{
    "SELECT table_name FROM information_schema.tables WHERE table_schema = 'public' AND table_type = 'BASE TABLE' ORDER BY table_name".to_owned()
}

/// The protocol engine's table listing, optionally scoped to one catalog
/// whose name is quote-escaped.
pub open spec fn spec_mssql_list_tables_sql(db: Option<Seq<char>>) -> Seq<char> {
    match db {
        Some(d) =>
            "SELECT TABLE_NAME FROM INFORMATION_SCHEMA.TABLES WHERE TABLE_TYPE = 'BASE TABLE' AND TABLE_CATALOG = '"@
                + escape_rep(d, '\'') + "' ORDER BY TABLE_NAME"@,
        None =>
            "SELECT TABLE_NAME FROM INFORMATION_SCHEMA.TABLES WHERE TABLE_TYPE = 'BASE TABLE' ORDER BY TABLE_NAME"@,
    }
}

pub fn mssql_list_tables_sql(db: Option<&str>) -> (r: String)
    ensures
        r@ == spec_mssql_list_tables_sql(opt_sref_view(db)),
{
    match db {
        Some(d) => {
            let mut s: String =
                "SELECT TABLE_NAME FROM INFORMATION_SCHEMA.TABLES WHERE TABLE_TYPE = 'BASE TABLE' AND TABLE_CATALOG = '".to_owned();
            let e = escape_doubling(d, '\'');
            s.append(e.as_str());
            s.append("' ORDER BY TABLE_NAME");
            proof {
                assert(s@ =~= spec_mssql_list_tables_sql(opt_sref_view(db)));
            }
            s
        },
        None =>
            "SELECT TABLE_NAME FROM INFORMATION_SCHEMA.TABLES WHERE TABLE_TYPE = 'BASE TABLE' ORDER BY TABLE_NAME".to_owned(),
    }
}

/// The file engine's column description, its table name backtick-escaped.
pub open spec fn spec_sqlite_table_info_sql(table: Seq<char>) -> Seq<char> {
    "PRAGMA table_info(`"@ + escape_rep(table, '`') + "`)"@
}

pub fn sqlite_table_info_sql(table: &str) -> (r: String)
    ensures
        r@ == spec_sqlite_table_info_sql(table@),
{
    let mut s: String = "PRAGMA table_info(`".to_owned();
    let e = escape_doubling(table, '`');
    s.append(e.as_str());
    s.append("`)");
    proof {
        assert(s@ =~= spec_sqlite_table_info_sql(table@));
    }
    s
}

/// The first network engine's column description, optionally qualified by
/// a database name; both identifiers are backtick-escaped.
pub open spec fn spec_mysql_show_columns_sql(table: Seq<char>, db: Option<Seq<char>>) -> Seq<
    char,
> {
    match db {
        Some(d) => "SHOW COLUMNS FROM `"@ + escape_rep(d, '`') + "`.`"@ + escape_rep(table, '`')
            + "`"@,
        None => "SHOW COLUMNS FROM `"@ + escape_rep(table, '`') + "`"@,
    }
}

pub fn mysql_show_columns_sql(table: &str, db: Option<&str>) -> (r: String)
    ensures
        r@ == spec_mysql_show_columns_sql(table@, opt_sref_view(db)),
{
    let et = escape_doubling(table, '`');
    match db {
        Some(d) => {
            let mut s: String = "SHOW COLUMNS FROM `".to_owned();
            let ed = escape_doubling(d, '`');
            s.append(ed.as_str());
            s.append("`.`");
            s.append(et.as_str());
            s.append("`");
            proof {
                assert(s@ =~= spec_mysql_show_columns_sql(table@, opt_sref_view(db)));
            }
            s
        },
        None => {
            let mut s: String = "SHOW COLUMNS FROM `".to_owned();
            s.append(et.as_str());
            s.append("`");
            proof {
                assert(s@ =~= spec_mysql_show_columns_sql(table@, opt_sref_view(db)));
            }
            s
        },
    }
}

/// The second network engine's column description from the standard
/// information-schema views, its table name quote-escaped.
pub open spec fn spec_postgres_describe_sql(table: Seq<char>) -> Seq<char> {
    "SELECT column_name, data_type, is_nullable, column_default, CASE WHEN pk.column_name IS NOT NULL THEN true ELSE false END AS is_primary_key, CASE WHEN column_default LIKE 'nextval%' THEN true ELSE false END AS is_auto_increment FROM information_schema.columns c LEFT JOIN (SELECT ku.table_schema, ku.table_name, ku.column_name FROM information_schema.table_constraints AS tc INNER JOIN information_schema.key_column_usage AS ku ON tc.constraint_type = 'PRIMARY KEY' AND tc.constraint_name = ku.constraint_name) pk ON c.table_schema = pk.table_schema AND c.table_name = pk.table_name AND c.column_name = pk.column_name WHERE c.table_schema = 'public' AND c.table_name = '"@
        + escape_rep(table, '\'') + "' ORDER BY c.ordinal_position"@
}

pub fn postgres_describe_sql(table: &str) -> (r: String)
    ensures
        r@ == spec_postgres_describe_sql(table@),
{
    let mut s: String =
        "SELECT column_name, data_type, is_nullable, column_default, CASE WHEN pk.column_name IS NOT NULL THEN true ELSE false END AS is_primary_key, CASE WHEN column_default LIKE 'nextval%' THEN true ELSE false END AS is_auto_increment FROM information_schema.columns c LEFT JOIN (SELECT ku.table_schema, ku.table_name, ku.column_name FROM information_schema.table_constraints AS tc INNER JOIN information_schema.key_column_usage AS ku ON tc.constraint_type = 'PRIMARY KEY' AND tc.constraint_name = ku.constraint_name) pk ON c.table_schema = pk.table_schema AND c.table_name = pk.table_name AND c.column_name = pk.column_name WHERE c.table_schema = 'public' AND c.table_name = '".to_owned();
    let e = escape_doubling(table, '\'');
    s.append(e.as_str());
    s.append("' ORDER BY c.ordinal_position");
    proof {
        assert(s@ =~= spec_postgres_describe_sql(table@));
    }
    s
}

/// The protocol engine's column description, its table name quote-escaped
/// at both interpolation points and optionally filtered to one catalog.
pub open spec fn spec_mssql_describe_sql(table: Seq<char>, db: Option<Seq<char>>) -> Seq<char> {
    let et = escape_rep(table, '\'');
    "SELECT COLUMN_NAME, DATA_TYPE, IS_NULLABLE, COLUMN_DEFAULT, CASE WHEN pk.COLUMN_NAME IS NOT NULL THEN 1 ELSE 0 END AS IS_PRIMARY_KEY, CASE WHEN COLUMNPROPERTY(OBJECT_ID('"@
        + et
        + "'), COLUMN_NAME, 'IsIdentity') = 1 THEN 1 ELSE 0 END AS IS_IDENTITY FROM INFORMATION_SCHEMA.COLUMNS c LEFT JOIN (SELECT ku.TABLE_CATALOG, ku.TABLE_SCHEMA, ku.TABLE_NAME, ku.COLUMN_NAME FROM INFORMATION_SCHEMA.TABLE_CONSTRAINTS AS tc INNER JOIN INFORMATION_SCHEMA.KEY_COLUMN_USAGE AS ku ON tc.CONSTRAINT_TYPE = 'PRIMARY KEY' AND tc.CONSTRAINT_NAME = ku.CONSTRAINT_NAME) pk ON c.TABLE_CATALOG = pk.TABLE_CATALOG AND c.TABLE_SCHEMA = pk.TABLE_SCHEMA AND c.TABLE_NAME = pk.TABLE_NAME AND c.COLUMN_NAME = pk.COLUMN_NAME WHERE "@
        + (match db {
        Some(d) => "c.TABLE_CATALOG = '"@ + escape_rep(d, '\'') + "' AND "@,
        None => Seq::<char>::empty(),
    }) + "c.TABLE_NAME = '"@ + et + "' ORDER BY c.ORDINAL_POSITION"@
}

pub fn mssql_describe_sql(table: &str, db: Option<&str>) -> (r: String)
    ensures
        r@ == spec_mssql_describe_sql(table@, opt_sref_view(db)),
{
    let et = escape_doubling(table, '\'');
    let mut s: String =
        "SELECT COLUMN_NAME, DATA_TYPE, IS_NULLABLE, COLUMN_DEFAULT, CASE WHEN pk.COLUMN_NAME IS NOT NULL THEN 1 ELSE 0 END AS IS_PRIMARY_KEY, CASE WHEN COLUMNPROPERTY(OBJECT_ID('".to_owned();
    s.append(et.as_str());
    s.append(
        "'), COLUMN_NAME, 'IsIdentity') = 1 THEN 1 ELSE 0 END AS IS_IDENTITY FROM INFORMATION_SCHEMA.COLUMNS c LEFT JOIN (SELECT ku.TABLE_CATALOG, ku.TABLE_SCHEMA, ku.TABLE_NAME, ku.COLUMN_NAME FROM INFORMATION_SCHEMA.TABLE_CONSTRAINTS AS tc INNER JOIN INFORMATION_SCHEMA.KEY_COLUMN_USAGE AS ku ON tc.CONSTRAINT_TYPE = 'PRIMARY KEY' AND tc.CONSTRAINT_NAME = ku.CONSTRAINT_NAME) pk ON c.TABLE_CATALOG = pk.TABLE_CATALOG AND c.TABLE_SCHEMA = pk.TABLE_SCHEMA AND c.TABLE_NAME = pk.TABLE_NAME AND c.COLUMN_NAME = pk.COLUMN_NAME WHERE ",
    );
    match db {
        Some(d) => {
            s.append("c.TABLE_CATALOG = '");
            let ed = escape_doubling(d, '\'');
            s.append(ed.as_str());
            s.append("' AND ");
        },
        None => {},
    }
    s.append("c.TABLE_NAME = '");
    s.append(et.as_str());
    s.append("' ORDER BY c.ORDINAL_POSITION");
    proof {
        assert(s@ =~= spec_mssql_describe_sql(table@, opt_sref_view(db)));
    }
    s
}

/// One file-engine catalog row (its `table_info` pragma) as a column
/// descriptor: a column is nullable when its not-null flag is clear, and
/// the pragma reports no identity information.
pub fn sqlite_column_info(
    name: String,
    data_type: String,
    notnull: i64,
    default: Option<String>,
    pk: i64,
) -> (r: ColumnInfo)
    ensures
        r.name == name,
        r.data_type == data_type,
        r.nullable == (notnull == 0),
        r.default == default,
        r.primary_key == (pk == 1),
        !r.auto_increment,
{
    ColumnInfo {
        name,
        data_type,
        nullable: notnull == 0,
        default,
        primary_key: pk == 1,
        auto_increment: false,
    }
}

/// One catalog row of the first network engine's column listing as a
/// column descriptor.
pub fn mysql_column_info(
    field: String,
    type_str: String,
    null: String,
    key: String,
    default: Option<String>,
    extra: String,
) -> (r: ColumnInfo)
    ensures
        r.name == field,
        r.data_type == type_str,
        r.nullable == (null@ == "YES"@),
        r.default == default,
        r.primary_key == (key@ == "PRI"@),
        r.auto_increment == contains_kw(extra@, "auto_increment"@, "auto_increment"@),
{
    let nullable = str_eq(null.as_str(), "YES");
    let primary_key = str_eq(key.as_str(), "PRI");
    let auto_increment = contains_keyword(extra.as_str(), "auto_increment", "auto_increment");
    ColumnInfo { name: field, data_type: type_str, nullable, default, primary_key, auto_increment }
}

/// One catalog row of the second network engine's information-schema
/// query as a column descriptor; the query itself computes the key and
/// identity flags.
pub fn postgres_column_info(
    name: String,
    data_type: String,
    is_nullable: String,
    default: Option<String>,
    is_pk: bool,
    is_auto: bool,
) -> (r: ColumnInfo)
    ensures
        r.name == name,
        r.data_type == data_type,
        r.nullable == (is_nullable@ == "YES"@),
        r.default == default,
        r.primary_key == is_pk,
        r.auto_increment == is_auto,
{
    let nullable = str_eq(is_nullable.as_str(), "YES");
    ColumnInfo {
        name,
        data_type,
        nullable,
        default,
        primary_key: is_pk,
        auto_increment: is_auto,
    }
}

/// One catalog row of the protocol engine's information-schema query as a
/// column descriptor: absent fields keep their documented fallbacks (an
/// empty type, not nullable, flags clear).
pub fn mssql_column_info(
    name: String,
    data_type: Option<String>,
    nullable: Option<String>,
    default: Option<String>,
    pk_flag: Option<i32>,
    identity_flag: Option<i32>,
) -> (r: ColumnInfo)
    ensures
        r.name == name,
        r.data_type@ == (match opt_str_view(data_type) {
            Some(s) => s,
            None => Seq::<char>::empty(),
        }),
        r.nullable == (match opt_str_view(nullable) {
            Some(s) => s == "YES"@,
            None => false,
        }),
        r.default == default,
        r.primary_key == (match pk_flag {
            Some(f) => f == 1,
            None => false,
        }),
        r.auto_increment == (match identity_flag {
            Some(f) => f == 1,
            None => false,
        }),
{
    let data_type_s = match data_type {
        Some(s) => s,
        None => String::new(),
    };
    let nullable_b = match &nullable {
        Some(s) => str_eq(s.as_str(), "YES"),
        None => false,
    };
    let primary_key = match pk_flag {
        Some(f) => f == 1,
        None => false,
    };
    let auto_increment = match identity_flag {
        Some(f) => f == 1,
        None => false,
    };
    ColumnInfo {
        name,
        data_type: data_type_s,
        nullable: nullable_b,
        default,
        primary_key,
        auto_increment,
    }
}

} // verus!
