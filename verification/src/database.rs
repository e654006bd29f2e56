//! The database client's decision logic.
//!
//! The session itself — connecting, signing in, selecting the
//! namespace, running queries — is I/O and lives in the embedding
//! binary.  This module owns the error taxonomy (each connection step
//! reports its own kind) and the pure readings of query results: the
//! baseline of a resource and the count carried by one row.

use vstd::prelude::*;

use crate::statistics::Statistic;

verus! {

/// Why a database operation failed.  Absence of a row is not among the
/// kinds: a resource with no row yet simply reads as count zero.
#[derive(Debug, Clone)]
pub enum DatabaseError {
    /// The websocket connection could not be opened.
    Connection(String),
    /// Signing in with the root credentials failed.
    Authorization(String),
    /// Switching to the configured namespace and database failed.
    Namespace(String),
    /// A query failed.
    Command(String),
}

impl DatabaseError {
    /// The text `describe` returns: the kind's own message with the
    /// transport detail appended.
    pub open spec fn spec_describe(&self) -> Seq<char> {
        match self {
            DatabaseError::Connection(d) => "failed to connect to database: "@ + d@,
            DatabaseError::Authorization(d) => "failed to authorize to database: "@ + d@,
            DatabaseError::Namespace(d) => "failed to switch namespace and database: "@ + d@,
            DatabaseError::Command(d) => "failed to execute query: "@ + d@,
        }
    }

    /// A human-readable description, with the transport detail appended.
    pub fn describe(&self) -> (s: String)
        ensures
            s@ == self.spec_describe(),
    {
        match self {
            DatabaseError::Connection(detail) => {
                let mut s = String::from_str("failed to connect to database: ");
                s.append(detail.as_str());
                s
            },
            DatabaseError::Authorization(detail) => {
                let mut s = String::from_str("failed to authorize to database: ");
                s.append(detail.as_str());
                s
            },
            DatabaseError::Namespace(detail) => {
                let mut s = String::from_str("failed to switch namespace and database: ");
                s.append(detail.as_str());
                s
            },
            DatabaseError::Command(detail) => {
                let mut s = String::from_str("failed to execute query: ");
                s.append(detail.as_str());
                s
            },
        }
    }
}

/// One row of a counter resource: the count it carries.
#[derive(Debug, Clone, PartialEq, Eq, Structural)]
pub struct CountUpdate {
    pub count: usize,
}

/// The baseline a one-shot read yields: the first row's count, or zero
/// when the resource has no row yet — absence is not an error.
pub open spec fn spec_baseline(rows: Seq<CountUpdate>) -> nat {
    if rows.len() == 0 {
        0
    } else {
        rows[0].count as nat
    }
}

/// Reads the baseline count out of the rows a one-shot select returned.
pub fn baseline_of(rows: &Vec<CountUpdate>) -> (b: usize)
    ensures
        b == spec_baseline(rows@),
{
    if rows.len() == 0 {
        0
    } else {
        rows[0].count
    }
}

/// Turns the optional count a statistics query returned into the
/// requested counter.  Absence is not an error: a resource with no row
/// yet reads as count zero.
pub fn statistic_from_row<S: Statistic>(row: Option<usize>) -> (s: S)
    ensures
        row matches Some(v) ==> s.spec_count() == v,
        row is None ==> s.spec_count() == 0,
{
    match row {
        Some(v) => S::from_count(v),
        None => S::from_count(0),
    }
}

} // verus!
