//! The settings of the service, read from the values of its environment variables.

use vstd::prelude::*;

use crate::text::{is_blank, opt_string, same_ignoring_ascii_case};

verus! {

/// The settings of the service.
#[derive(Debug)]
pub struct Settings {
    /// Where the database is; without it the entities are kept in memory.
    pub database_url: Option<String>,
    /// The key that requests to the API have to offer.
    pub api_key: Option<String>,
    /// Whether the API is open where no key is set.
    pub allow_insecure_dev: bool,
}

/// How the API is guarded.
#[derive(Clone, Copy, Debug, PartialEq, Eq, Structural)]
pub enum AuthMode {
    /// A key is set and has to be offered.
    ApiKey,
    /// No key is set, and none is asked for.
    Disabled,
    /// No key is set, and every request is refused.
    Missing,
}

/// The value of a variable, where it is set to more than white space.
pub open spec fn non_blank(value: Option<Seq<char>>) -> Option<Seq<char>> {
    match value {
        Some(v) => if is_blank(v) {
            None
        } else {
            Some(v)
        },
        None => None,
    }
}

/// Whether the value of a variable switches it on: `1`, or `true` in any case.
pub open spec fn switched_on(value: Option<Seq<char>>) -> bool {
    match value {
        Some(v) => v == "1"@ || same_ignoring_ascii_case(v, "true"@),
        None => false,
    }
}

/// Drops a value that is nothing but white space.
fn filter_blank(value: Option<String>) -> (kept: Option<String>)
    ensures
        opt_string(kept) == non_blank(opt_string(value)),
{
    match value {
        Some(v) => if v.as_str().trim().is_empty() {
            None
        } else {
            Some(v)
        },
        None => None,
    }
}

impl Settings {
    /// Reads the settings from the values of the variables for the database's address, the API
    /// key and the switch for development without a key.
    pub fn from_vars(
        database_url: Option<String>,
        api_key: Option<String>,
        allow_insecure_dev: Option<String>,
    ) -> (settings: Settings)
        ensures
            opt_string(settings.database_url) == non_blank(opt_string(database_url)),
            opt_string(settings.api_key) == non_blank(opt_string(api_key)),
            settings.allow_insecure_dev == switched_on(opt_string(allow_insecure_dev)),
    {
        let allow_insecure_dev = match allow_insecure_dev {
            Some(v) => *v.as_str() == *"1" || v.as_str().eq_ignore_ascii_case("true"),
            None => false,
        };
        Settings {
            database_url: filter_blank(database_url),
            api_key: filter_blank(api_key),
            allow_insecure_dev,
        }
    }

    /// How the API is guarded.
    pub fn auth_mode(&self) -> (mode: AuthMode)
        ensures
            mode == (if self.api_key is Some {
                AuthMode::ApiKey
            } else if self.allow_insecure_dev {
                AuthMode::Disabled
            } else {
                AuthMode::Missing
            }),
    {
        if self.api_key.is_some() {
            AuthMode::ApiKey
        } else if self.allow_insecure_dev {
            AuthMode::Disabled
        } else {
            AuthMode::Missing
        }
    }
}

} // verus!
