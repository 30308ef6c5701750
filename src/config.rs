use vstd::prelude::*;
use vstd::string::StringExecFns;

verus! {

/// Where the server listens and how it reaches its database.
#[derive(Debug, Clone)]
pub struct AppConfig {
    pub server_addr: String,
    pub surrealdb_url: String,
    pub surrealdb_user: String,
    pub surrealdb_pass: String,
    pub surrealdb_ns: String,
    pub surrealdb_db: String,
}

/// The setting that `v` gives, with `default` where it is unset.
pub open spec fn setting(v: Option<String>, default: Seq<char>) -> Seq<char> {
    match v {
        Some(x) => x@,
        None => default,
    }
}

fn value_or(v: Option<String>, default: &str) -> (r: String)
    ensures
        r@ == setting(v, default@),
{
    match v {
        Some(x) => x,
        None => String::from_str(default),
    }
}

impl AppConfig {
    /// The configuration from the given settings, each unset one taking its
    /// default: the server on `127.0.0.1:8080`, the database on
    /// `127.0.0.1:8000` as `root`/`root`, namespace and database `shorturl`.
    pub fn from_values(
        server_addr: Option<String>,
        surrealdb_url: Option<String>,
        surrealdb_user: Option<String>,
        surrealdb_pass: Option<String>,
        surrealdb_ns: Option<String>,
        surrealdb_db: Option<String>,
    ) -> (r: AppConfig)
        ensures
            r.server_addr@ == setting(server_addr, "127.0.0.1:8080"@),
            r.surrealdb_url@ == setting(surrealdb_url, "127.0.0.1:8000"@),
            r.surrealdb_user@ == setting(surrealdb_user, "root"@),
            r.surrealdb_pass@ == setting(surrealdb_pass, "root"@),
            r.surrealdb_ns@ == setting(surrealdb_ns, "shorturl"@),
            r.surrealdb_db@ == setting(surrealdb_db, "shorturl"@),
    {
        AppConfig {
            server_addr: value_or(server_addr, "127.0.0.1:8080"),
            surrealdb_url: value_or(surrealdb_url, "127.0.0.1:8000"),
            surrealdb_user: value_or(surrealdb_user, "root"),
            surrealdb_pass: value_or(surrealdb_pass, "root"),
            surrealdb_ns: value_or(surrealdb_ns, "shorturl"),
            surrealdb_db: value_or(surrealdb_db, "shorturl"),
        }
    }
}

} // verus!
