//! Registered connections and the pure list operations of the registry:
//! lookup by id, removal, and the edit that re-decodes a connection's
//! configuration. The registry's persistence is a collaborator's concern;
//! these functions compute the new list and say whether the edit requires
//! the connection's pooled handles to be invalidated.

use vstd::prelude::*;
use crate::config::ConfigError;
use crate::config::ConfigV;
use crate::config::ConnectionConfig;
use crate::config::opt_str_view;
use crate::config::parse_connection_config;
use crate::config::res_view;
use crate::config::spec_config_error_message;
use crate::config::spec_parse_config;
use crate::ids::new_uuid_string;
use crate::json::json_fields;
use crate::strutil::str_eq;

verus! {

/// One registered connection: a stable id, a display name, the engine
/// kind tag and the engine-specific configuration. The configuration
/// variant always matches the engine kind the decoder was given.
#[derive(Debug)]
pub struct Connection {
    pub id: String,
    pub name: String,
    pub db_type: String,
    pub config: ConnectionConfig,
}

/// The mathematical shape of a `Connection`.
pub struct ConnectionV {
    pub id: Seq<char>,
    pub name: Seq<char>,
    pub db_type: Seq<char>,
    pub config: ConfigV,
}

impl View for Connection {
    type V = ConnectionV;

    open spec fn view(&self) -> ConnectionV {
        ConnectionV {
            id: self.id@,
            name: self.name@,
            db_type: self.db_type@,
            config: self.config@,
        }
    }
}

/// The position of the first connection with the given id, if any.
pub fn find_connection_index(connections: &Vec<Connection>, id: &str) -> (r: Option<usize>)
    ensures
        match r {
            Some(i) => i < connections@.len() && connections@[i as int].id@ == id@ && forall|
                j: int,
            | 0 <= j < i ==> connections@[j].id@ != id@,
            None => forall|j: int| 0 <= j < connections@.len() ==> connections@[j].id@ != id@,
        },
{
    let n = connections.len();
    let mut i: usize = 0;
    while i < n
        invariant
            n == connections@.len(),
            i <= n,
            forall|j: int| 0 <= j < i ==> connections@[j].id@ != id@,
        decreases n - i,
    {
        if str_eq(connections[i].id.as_str(), id) {
            return Some(i);
        }
        i = i + 1;
    }
    None
}

/// The first connection with the given id, if any.
pub fn find_connection<'a>(connections: &'a Vec<Connection>, id: &str) -> (r: Option<
    &'a Connection,
>)
    ensures
        match r {
            Some(c) => exists|i: int|
                0 <= i < connections@.len() && connections@[i] == *c && c.id@ == id@,
            None => forall|j: int| 0 <= j < connections@.len() ==> connections@[j].id@ != id@,
        },
{
    match find_connection_index(connections, id) {
        Some(i) => Some(&connections[i]),
        None => None,
    }
}

/// The registry without any connection of the given id; the relative
/// order of the others is kept.
pub fn remove_connection(connections: Vec<Connection>, id: &str) -> (r: Vec<Connection>)
    ensures
        r@ == connections@.filter(|c: Connection| c.id@ != id@),
{
    let ghost pred = |c: Connection| c.id@ != id@;
    let n = connections.len();
    let mut kept: Vec<Connection> = Vec::new();
    let mut i: usize = 0;
    proof {
        reveal(Seq::filter);
        assert(connections@.take(0).filter(pred) =~= Seq::<Connection>::empty());
    }
    while i < n
        invariant
            n == connections@.len(),
            i <= n,
            kept@ == connections@.take(i as int).filter(|c: Connection| c.id@ != id@),
        decreases n - i,
    {
        let keep = !str_eq(connections[i].id.as_str(), id);
        proof {
            reveal(Seq::filter);
            assert(connections@.take(i + 1).drop_last() =~= connections@.take(i as int));
            assert(connections@.take(i + 1).last() == connections@[i as int]);
        }
        if keep {
            let c = clone_connection(&connections[i]);
            kept.push(c);
        }
        i = i + 1;
    }
    proof {
        assert(connections@.take(n as int) =~= connections@);
    }
    kept
}

fn clone_opt_string(s: &Option<String>) -> (r: Option<String>)
    ensures
        r == *s,
{
    match s {
        Some(x) => Some(x.clone()),
        None => None,
    }
}

fn clone_config(c: &ConnectionConfig) -> (r: ConnectionConfig)
    ensures
        r == *c,
{
    match c {
        ConnectionConfig::Sqlite { filepath } => ConnectionConfig::Sqlite {
            filepath: filepath.clone(),
        },
        ConnectionConfig::Mysql { host, port, user, password, database, ssl } => ConnectionConfig::Mysql {
            host: host.clone(),
            port: *port,
            user: user.clone(),
            password: password.clone(),
            database: clone_opt_string(database),
            ssl: *ssl,
        },
        ConnectionConfig::Postgres { host, port, user, password, database, ssl } => ConnectionConfig::Postgres {
            host: host.clone(),
            port: *port,
            user: user.clone(),
            password: password.clone(),
            database: clone_opt_string(database),
            ssl: *ssl,
        },
        ConnectionConfig::Mssql { host, port, user, password, database, ssl } => ConnectionConfig::Mssql {
            host: host.clone(),
            port: *port,
            user: user.clone(),
            password: password.clone(),
            database: clone_opt_string(database),
            ssl: *ssl,
        },
    }
}

/// An exact copy of a connection record.
pub fn clone_connection(c: &Connection) -> (r: Connection)
    ensures
        r == *c,
{
    Connection {
        id: c.id.clone(),
        name: c.name.clone(),
        db_type: c.db_type.clone(),
        config: clone_config(&c.config),
    }
}

/// Registers a new connection: the engine kind plus parameter bag is
/// decoded as for a fresh configuration, the record is appended under a
/// freshly drawn identifier (of whose value nothing is assumed), and the
/// identifier is returned. A rejected bag or an unknown kind leaves the
/// registry untouched.
pub fn register_connection(
    connections: Vec<Connection>,
    name: String,
    db_type: String,
    config: &serde_json::Value,
) -> (r: Result<(Vec<Connection>, String), ConfigError>)
    ensures
        match r {
            Ok(p) => {
                &&& spec_parse_config(db_type@, json_fields(*config)) is Ok
                &&& p.0@.len() == connections@.len() + 1
                &&& (forall|j: int| 0 <= j < connections@.len() ==> p.0@[j] == connections@[j])
                &&& p.0@.last().name@ == name@
                &&& p.0@.last().db_type@ == db_type@
                &&& Ok::<ConfigV, crate::config::ConfigErrorV>(p.0@.last().config@)
                    == spec_parse_config(db_type@, json_fields(*config))
                &&& p.0@.last().id@ == p.1@
            },
            Err(e) => res_view(Err::<ConnectionConfig, ConfigError>(e)) == spec_parse_config(
                db_type@,
                json_fields(*config),
            ),
        },
{
    match parse_connection_config(db_type.as_str(), config) {
        Ok(cfg) => {
            let id = new_uuid_string();
            let conn = Connection { id: id.clone(), name, db_type, config: cfg };
            let mut connections = connections;
            let ghost before = connections@;
            connections.push(conn);
            proof {
                assert(forall|j: int| 0 <= j < before.len() ==> connections@[j] == before[j]);
            }
            Ok((connections, id))
        },
        Err(e) => Err(e),
    }
}

/// Applies an edit to the first connection with the given id: an optional
/// new display name, and an optional new parameter bag that is re-decoded
/// against the connection's existing engine kind by the same strict
/// decoder as a fresh registration — a required field absent from the new
/// bag rejects the edit with the error naming it, never a silent default.
/// Returns the new list and whether the connection's pooled handles must
/// be invalidated (that is, whether its configuration was replaced). An
/// unknown id or a rejected parameter bag leaves the registry untouched.
pub fn apply_connection_update(
    connections: Vec<Connection>,
    id: &str,
    new_name: Option<String>,
    new_config: Option<&serde_json::Value>,
) -> (r: Result<(Vec<Connection>, bool), String>)
    ensures
        match r {
            Ok(p) => exists|i: int|
                #![auto]
                {
                    &&& 0 <= i < connections@.len()
                    &&& connections@[i].id@ == id@
                    &&& (forall|j: int| 0 <= j < i ==> connections@[j].id@ != id@)
                    &&& p.0@.len() == connections@.len()
                    &&& (forall|j: int| 0 <= j < connections@.len() && j != i ==> p.0@[j]
                        == connections@[j])
                    &&& p.0@[i].id@ == connections@[i].id@
                    &&& p.0@[i].db_type@ == connections@[i].db_type@
                    &&& p.0@[i].name@ == (match opt_str_view(new_name) {
                        Some(nm) => nm,
                        None => connections@[i].name@,
                    })
                    &&& (match new_config {
                        Some(v) => spec_parse_config(connections@[i].db_type@, json_fields(*v))
                            == Ok::<ConfigV, crate::config::ConfigErrorV>(p.0@[i].config@) && p.1,
                        None => p.0@[i].config@ == connections@[i].config@ && !p.1,
                    })
                },
            Err(e) => ((forall|j: int| 0 <= j < connections@.len() ==> connections@[j].id@ != id@)
                && e@ == "Connection not found"@) || (exists|i: int|
                #![auto]
                {
                    &&& 0 <= i < connections@.len()
                    &&& connections@[i].id@ == id@
                    &&& (forall|j: int| 0 <= j < i ==> connections@[j].id@ != id@)
                    &&& new_config is Some
                    &&& (spec_parse_config(
                        connections@[i].db_type@,
                        json_fields(*new_config->0),
                    ) matches Err(ev) && e@ == spec_config_error_message(ev))
                }),
        },
{
    let mut connections = connections;
    match find_connection_index(&connections, id) {
        None => Err("Connection not found".to_owned()),
        Some(i) => {
            let ghost before = connections@;
            let mut conn = connections.remove(i);
            match new_name {
                Some(nm) => {
                    conn.name = nm;
                },
                None => {},
            }
            let mut changed = false;
            match new_config {
                Some(v) => {
                    match parse_connection_config(conn.db_type.as_str(), v) {
                        Ok(cfg) => {
                            conn.config = cfg;
                            changed = true;
                        },
                        Err(e) => {
                            return Err(e.message());
                        },
                    }
                },
                None => {},
            }
            connections.insert(i, conn);
            proof {
                assert(forall|j: int|
                    0 <= j < before.len() && j != i ==> connections@[j] == before[j]);
            }
            Ok((connections, changed))
        },
    }
}

} // verus!
