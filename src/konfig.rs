use vstd::prelude::*;

use crate::request::{environment_name_ok, lookup_environment};

verus! {

/// A configuration that could not be loaded.
#[derive(Debug, Clone, PartialEq, Eq)]
pub enum Error {
    ConfigError(String),
}

/// The URL prefix that a lookup gave, or none where it failed (this call path is permissive).
pub fn prefix_or_none(looked_up: Result<String, crate::error::Error>) -> (r: Option<String>)
    ensures
        looked_up matches Ok(v) ==> r == Some(v),
        looked_up is Err ==> r is None,
{
    match looked_up {
        Ok(v) => Some(v),
        Err(_) => None,
    }
}

/// The URL prefix configured for `env`, where an environment is given and one is configured
/// under `environments.<env>`; a name holding `[` gives none.
pub fn environment(env: Option<&String>, config: &config::Config) -> (r: Option<String>)
    ensures
        env is None ==> r is None,
        env matches Some(name) && !environment_name_ok(name@) ==> r is None,
{
    match env {
        None => None,
        Some(name) => prefix_or_none(lookup_environment(name.as_str(), config)),
    }
}

} // verus!
