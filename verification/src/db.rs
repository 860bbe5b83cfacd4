//! Database vocabulary of the SQL interpolation layer.
//!
//! The query-building engine itself binds values through the SQL driver's
//! traits and stays with the caller; here are the database kinds, the raw
//! SQL marker, and the column-type tags with their per-database SQL text.

use vstd::prelude::*;
use vstd::string::StringExecFns;

verus! {

/// The database dialects the builder can write for.
#[derive(Debug, Clone, Copy, PartialEq, Eq, Structural)]
pub enum DBKind {
    Postgres,
    Sqlite,
}

/// Errors of the query builder.
#[derive(Clone, Debug)]
pub enum DBBuilderError {
    /// The query has bound values, so it cannot be rendered as a raw
    /// string.
    QueryIsNotRaw,
}

/// An unescaped raw SQL snippet, concatenated into a query as-is. Use with
/// caution: it is not protected against SQL injection.
#[derive(Clone, Debug)]
pub struct RawSql(pub String);

impl RawSql {
    pub fn new(sql: &str) -> (r: RawSql)
        ensures
            r.0@ == sql@,
    {
        RawSql(String::from_str(sql))
    }
}

/// Column type for a unique, auto-incremented id.
#[derive(Clone, Copy, Debug)]
pub struct EntityId;

/// The column type text `EntityId` writes for each dialect.
pub open spec fn spec_entity_id_sql(kind: DBKind) -> Seq<char> {
    match kind {
        DBKind::Postgres => "SERIAL PRIMARY KEY"@,
        DBKind::Sqlite => "INTEGER PRIMARY KEY AUTOINCREMENT"@,
    }
}

impl EntityId {
    pub fn sql_text(kind: DBKind) -> (r: &'static str)
        ensures
            r@ == spec_entity_id_sql(kind),
    {
        match kind {
            DBKind::Postgres => "SERIAL PRIMARY KEY",
            DBKind::Sqlite => "INTEGER PRIMARY KEY AUTOINCREMENT",
        }
    }
}

/// Column type for a binary blob.
#[derive(Clone, Copy, Debug)]
pub struct BinaryBlob;

/// The column type text `BinaryBlob` writes for each dialect.
pub open spec fn spec_binary_blob_sql(kind: DBKind) -> Seq<char> {
    match kind {
        DBKind::Postgres => "BYTEA"@,
        DBKind::Sqlite => "BLOB"@,
    }
}

impl BinaryBlob {
    pub fn sql_text(kind: DBKind) -> (r: &'static str)
        ensures
            r@ == spec_binary_blob_sql(kind),
    {
        match kind {
            DBKind::Postgres => "BYTEA",
            DBKind::Sqlite => "BLOB",
        }
    }
}

/// The current time, as each dialect spells it.
#[derive(Clone, Copy, Debug)]
pub struct Now;

/// The expression text `Now` writes for each dialect.
pub open spec fn spec_now_sql(kind: DBKind) -> Seq<char> {
    match kind {
        DBKind::Postgres => "now()"@,
        DBKind::Sqlite => "datetime('now')"@,
    }
}

impl Now {
    pub fn sql_text(kind: DBKind) -> (r: &'static str)
        ensures
            r@ == spec_now_sql(kind),
    {
        match kind {
            DBKind::Postgres => "now()",
            DBKind::Sqlite => "datetime('now')",
        }
    }
}

} // verus!
