//! Resolution of the database connection target shared by every store.
use vstd::prelude::*;
use vstd::string::StringExecFns;

verus! {

/// The URL that names the SQLite database file at `path`.
pub open spec fn sqlite_url_of(path: Seq<char>) -> Seq<char> {
    "sqlite://"@ + path
}

/// The connection target chosen when neither a path nor an environment value is given.
pub open spec fn default_url() -> Seq<char> {
    "sqlite://monitor.db"@
}

/// The connection target for the given explicit path and environment value.
pub open spec fn resolved_url(path: Option<Seq<char>>, env_url: Option<Seq<char>>) -> Seq<char> {
    match path {
        Some(p) => sqlite_url_of(p),
        None => match env_url {
            Some(u) => u,
            None => default_url(),
        },
    }
}

/// An explicit path decides the target whatever the environment holds, an
/// environment value is taken whole, and each replaces what ranks below it.
pub proof fn lemma_override_replaces(
    path: Seq<char>,
    env_url: Seq<char>,
    env_a: Option<Seq<char>>,
    env_b: Option<Seq<char>>,
)
    ensures
        resolved_url(Some(path), env_a) == sqlite_url_of(path),
        resolved_url(Some(path), env_a) == resolved_url(Some(path), env_b),
        resolved_url(None, Some(env_url)) == env_url,
        resolved_url(None, None) == default_url(),
{
}

/// Chooses the connection target: an explicit path wins, then the value of the
/// environment (`DATABASE_URL`, read by the caller), then the built-in default.
pub fn db_url(path: Option<&str>, env_url: Option<String>) -> (r: String)
    ensures
        r@ == resolved_url(
            match path { Some(p) => Some(p@), None => None },
            match env_url { Some(u) => Some(u@), None => None },
        ),
{
    match path {
        Some(p) => {
            let mut url = String::from_str("sqlite://");
            url.append(p);
            url
        },
        None => match env_url {
            Some(u) => u,
            None => String::from_str("sqlite://monitor.db"),
        },
    }
}

} // verus!
