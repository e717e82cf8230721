//! The query model: the closed set of query variants a caller can issue, and
//! the two pure projections every variant has — the database name it mentions,
//! if any, and the literal SQL text it runs.

use vstd::prelude::*;
use vstd::string::StringExecFns;

verus! {

/// The connection descriptor: an opaque string sufficient to open a database
/// connection. The router only concatenates it, never parses it.
#[derive(Debug)]
pub enum Connection {
    Stateless(String),
}

/// A table within an optionally named database.
#[derive(Debug, Clone)]
pub struct DatabaseTable {
    pub database: Option<String>,
    pub table: String,
}

/// Caller-supplied SQL against an optionally named database.
#[derive(Debug, Clone)]
pub struct CustomQuery {
    pub database: Option<String>,
    pub sql_query: String,
}

/// One request the router can execute.
#[derive(Debug)]
pub enum Query {
    CustomQuery(CustomQuery),
    GetDatabases,
    GetTables(Option<String>),
    GetTableContents(DatabaseTable),
}

impl Query {
    /// The database name this query targets, if it names one.
    pub open spec fn spec_mentioned_database(&self) -> Option<String> {
        match self {
            Query::CustomQuery(custom_query) => custom_query.database,
            Query::GetDatabases => None,
            Query::GetTables(opt_db) => *opt_db,
            Query::GetTableContents(db_table) => db_table.database,
        }
    }

    /// The SQL text this query runs.
    pub open spec fn spec_query_string(&self) -> Seq<char> {
        match self {
            Query::CustomQuery(custom_query) => custom_query.sql_query@,
            Query::GetDatabases => "SELECT datname FROM pg_database;"@,
            Query::GetTables(_) => "SELECT table_name 
            FROM information_schema.tables
            WHERE table_schema = 'public';"@,
            Query::GetTableContents(db_and_table) => "SELECT * FROM \""@ + db_and_table.table@
                + "\";"@,
        }
    }

    /// The database name this query targets, if it names one.
    pub fn get_mentioned_database(&self) -> (r: Option<String>)
        ensures
            r == self.spec_mentioned_database(),
    {
        match self {
            Self::CustomQuery(custom_query) => clone_opt_string(&custom_query.database),
            Self::GetDatabases => None,
            Self::GetTables(opt_db) => clone_opt_string(opt_db),
            Self::GetTableContents(db_table) => clone_opt_string(&db_table.database),
        }
    }

    /// The SQL text this query runs.
    pub fn get_query_string(&self) -> (r: String)
        ensures
            r@ == self.spec_query_string(),
    {
        match self {
            Self::CustomQuery(custom_query) => custom_query.sql_query.clone(),
            Self::GetDatabases => "SELECT datname FROM pg_database;".to_owned(),
            Self::GetTables(_) => "SELECT table_name 
            FROM information_schema.tables
            WHERE table_schema = 'public';".to_owned(),
            Self::GetTableContents(db_and_table) => {
                let mut s = "SELECT * FROM \"".to_owned();
                s.append(db_and_table.table.as_str());
                s.append("\";");
                s
            },
        }
    }
}

/// A request as carried by the inbound channel: the connection descriptor to
/// use and the query to run against it.
#[derive(Debug)]
pub struct FullQuery {
    pub connection: Connection,
    pub query: Query,
}

fn clone_opt_string(o: &Option<String>) -> (r: Option<String>)
    ensures
        r == *o,
{
    match o {
        Some(s) => Some(s.clone()),
        None => None,
    }
}

/// The view of an optional string.
pub open spec fn opt_str_view(o: Option<String>) -> Option<Seq<char>> {
    match o {
        Some(s) => Some(s@),
        None => None,
    }
}

/// The connection string that results from merging a target database name
/// into a base descriptor: unchanged when no database is targeted, otherwise
/// the base with a ` dbname=<name>` clause appended.
pub open spec fn spec_resulting_connection_string(base: Seq<char>, database: Option<Seq<char>>)
    -> Seq<char> {
    match database {
        Some(dbname) => base + " dbname="@ + dbname,
        None => base,
    }
}

/// Merge a target database name, if any, into a base connection descriptor.
pub fn get_resulting_connection_string(connection_string: &str, database: &Option<String>) -> (r:
    String)
    ensures
        r@ == spec_resulting_connection_string(connection_string@, opt_str_view(*database)),
{
    match database {
        Some(dbname) => {
            let mut s = connection_string.to_owned();
            s.append(" dbname=");
            s.append(dbname.as_str());
            s
        },
        None => connection_string.to_owned(),
    }
}

/// Law: both query projections are pure and total — equal queries always give
/// equal projections, and every variant has both.
pub proof fn lemma_query_model_pure(q1: &Query, q2: &Query)
    requires
        q1 == q2,
    ensures
        q1.spec_mentioned_database() == q2.spec_mentioned_database(),
        q1.spec_query_string() == q2.spec_query_string(),
{
}

/// Law: merging a database name into a descriptor appends exactly one
/// ` dbname=<name>` clause to the base, and merging no name at all leaves the
/// base untouched.
pub proof fn lemma_connection_string_merge(base: Seq<char>, name: Seq<char>)
    ensures
        spec_resulting_connection_string(base, Some(name)) == base + " dbname="@ + name,
        spec_resulting_connection_string(base, None) == base,
{
}

} // verus!
