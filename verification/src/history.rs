//! The execution-history log: every run of a statement is recorded with
//! its connection, the SQL, the outcome and a wall-clock timestamp, newest
//! first, and the log is capped at a configurable length. Reading and
//! writing the log's file is a collaborator's concern; the list
//! transformations here are pure except for drawing the fresh entry's
//! identifier and timestamp.

use vstd::prelude::*;
use crate::config::opt_str_view;
use crate::ids::new_uuid_string;
use crate::ids::now_rfc3339;
use crate::strutil::str_eq;

verus! {

/// One recorded execution attempt.
#[derive(Debug)]
pub struct SqlHistory {
    pub id: String,
    pub connection_id: String,
    pub connection_name: String,
    pub sql: String,
    pub executed_at: String,
    pub success: bool,
    pub error_message: Option<String>,
    pub rows_affected: Option<u64>,
}

/// The mathematical shape of a `SqlHistory`.
pub struct SqlHistoryV {
    pub id: Seq<char>,
    pub connection_id: Seq<char>,
    pub connection_name: Seq<char>,
    pub sql: Seq<char>,
    pub executed_at: Seq<char>,
    pub success: bool,
    pub error_message: Option<Seq<char>>,
    pub rows_affected: Option<u64>,
}

impl View for SqlHistory {
    type V = SqlHistoryV;

    open spec fn view(&self) -> SqlHistoryV {
        SqlHistoryV {
            id: self.id@,
            connection_id: self.connection_id@,
            connection_name: self.connection_name@,
            sql: self.sql@,
            executed_at: self.executed_at@,
            success: self.success,
            error_message: opt_str_view(self.error_message),
            rows_affected: self.rows_affected,
        }
    }
}

/// The length of the log after one entry is recorded under the cap.
pub open spec fn spec_capped_len(old_len: nat, max_entries: nat) -> nat {
    if old_len + 1 > max_entries {
        max_entries
    } else {
        old_len + 1
    }
}

/// Records one execution attempt: a fresh entry — under a fresh random
/// identifier and the current timestamp, of which nothing more is
/// known — is put at the front, and the log is cut back to `max_entries`.
/// Returns the new log and the fresh entry's identifier.
pub fn add_history_entry(
    history: Vec<SqlHistory>,
    connection_id: String,
    connection_name: String,
    sql: String,
    success: bool,
    error_message: Option<String>,
    rows_affected: Option<u64>,
    max_entries: usize,
) -> (r: (Vec<SqlHistory>, String))
    ensures
        r.0@.len() == spec_capped_len(history@.len(), max_entries as nat),
        max_entries >= 1 ==> {
            &&& r.0@[0].connection_id@ == connection_id@
            &&& r.0@[0].connection_name@ == connection_name@
            &&& r.0@[0].sql@ == sql@
            &&& r.0@[0].success == success
            &&& opt_str_view(r.0@[0].error_message) == opt_str_view(error_message)
            &&& r.0@[0].rows_affected == rows_affected
            &&& r.0@[0].id@ == r.1@
        },
        forall|k: int| 1 <= k < r.0@.len() ==> r.0@[k] == history@[k - 1],
{
    let id = new_uuid_string();
    let executed_at = now_rfc3339();
    let entry = SqlHistory {
        id: id.clone(),
        connection_id,
        connection_name,
        sql,
        executed_at,
        success,
        error_message,
        rows_affected,
    };
    let mut history = history;
    history.insert(0, entry);
    if history.len() > max_entries {
        history.truncate(max_entries);
    }
    (history, id)
}

/// The log filtered to one connection and cut to a limit, newest first:
/// entries of other connections leave, order is kept.
pub open spec fn spec_filter_history(
    h: Seq<SqlHistory>,
    connection_id: Option<Seq<char>>,
    limit: Option<usize>,
) -> Seq<SqlHistory> {
    let kept = match connection_id {
        Some(cid) => h.filter(|e: SqlHistory| e.connection_id@ == cid),
        None => h,
    };
    match limit {
        Some(l) => if kept.len() > l {
            kept.take(l as int)
        } else {
            kept
        },
        None => kept,
    }
}

fn clone_history_entry(e: &SqlHistory) -> (r: SqlHistory)
    ensures
        r == *e,
{
    SqlHistory {
        id: e.id.clone(),
        connection_id: e.connection_id.clone(),
        connection_name: e.connection_name.clone(),
        sql: e.sql.clone(),
        executed_at: e.executed_at.clone(),
        success: e.success,
        error_message: match &e.error_message {
            Some(m) => Some(m.clone()),
            None => None,
        },
        rows_affected: e.rows_affected,
    }
}

/// Reads the log, optionally restricted to one connection and cut to a
/// limit.
pub fn filter_history(
    history: &Vec<SqlHistory>,
    connection_id: Option<&str>,
    limit: Option<usize>,
) -> (r: Vec<SqlHistory>)
    ensures
        r@ == spec_filter_history(
            history@,
            crate::connstr::opt_sref_view(connection_id),
            limit,
        ),
{
    let n = history.len();
    let mut kept: Vec<SqlHistory> = Vec::new();
    match connection_id {
        Some(cid) => {
            proof {
                reveal(Seq::filter);
                assert(history@.take(0) =~= Seq::<SqlHistory>::empty());
            }
            let mut i: usize = 0;
            while i < n
                invariant
                    n == history@.len(),
                    i <= n,
                    kept@ == spec_filter_history(
                        history@.take(i as int),
                        crate::connstr::opt_sref_view(connection_id),
                        None,
                    ),
                    connection_id is Some && connection_id->0 == cid,
                decreases n - i,
            {
                proof {
                    reveal(Seq::filter);
                    assert(history@.take(i + 1).drop_last() =~= history@.take(i as int));
                    assert(history@.take(i + 1).last() == history@[i as int]);
                }
                if str_eq(history[i].connection_id.as_str(), cid) {
                    kept.push(clone_history_entry(&history[i]));
                }
                i = i + 1;
            }
            proof {
                assert(history@.take(n as int) =~= history@);
            }
        },
        None => {
            let mut i: usize = 0;
            while i < n
                invariant
                    n == history@.len(),
                    i <= n,
                    kept@ == history@.take(i as int),
                decreases n - i,
            {
                kept.push(clone_history_entry(&history[i]));
                proof {
                    assert(kept@ =~= history@.take(i + 1));
                }
                i = i + 1;
            }
            proof {
                assert(history@.take(n as int) =~= history@);
            }
        },
    }
    match limit {
        Some(l) => {
            if kept.len() > l {
                kept.truncate(l);
            }
        },
        None => {},
    }
    kept
}

/// The log after a deletion request: one entry's removal by id, or a
/// full clear when no id is given.
pub open spec fn spec_delete_history(h: Seq<SqlHistory>, id: Option<Seq<char>>) -> Seq<
    SqlHistory,
> {
    match id {
        Some(hid) => h.filter(|e: SqlHistory| e.id@ != hid),
        None => Seq::empty(),
    }
}

/// Deletes one entry by id, or clears the whole log when no id is given.
pub fn delete_history(history: Vec<SqlHistory>, id: Option<&str>) -> (r: Vec<SqlHistory>)
    ensures
        r@ == spec_delete_history(history@, crate::connstr::opt_sref_view(id)),
{
    match id {
        Some(hid) => {
            let n = history.len();
            let mut kept: Vec<SqlHistory> = Vec::new();
            proof {
                reveal(Seq::filter);
                assert(history@.take(0) =~= Seq::<SqlHistory>::empty());
            }
            let mut i: usize = 0;
            while i < n
                invariant
                    n == history@.len(),
                    i <= n,
                    kept@ == spec_delete_history(
                        history@.take(i as int),
                        crate::connstr::opt_sref_view(id),
                    ),
                    id is Some && id->0 == hid,
                decreases n - i,
            {
                proof {
                    reveal(Seq::filter);
                    assert(history@.take(i + 1).drop_last() =~= history@.take(i as int));
                    assert(history@.take(i + 1).last() == history@[i as int]);
                }
                if !str_eq(history[i].id.as_str(), hid) {
                    kept.push(clone_history_entry(&history[i]));
                }
                i = i + 1;
            }
            proof {
                assert(history@.take(n as int) =~= history@);
            }
            kept
        },
        None => {
            let mut history = history;
            history.clear();
            history
        },
    }
}

} // verus!
