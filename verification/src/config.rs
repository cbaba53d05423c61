//! Server-level configuration.

use vstd::prelude::*;

use crate::text::{comma_list, parse_allowed_hosts, views};

verus! {

/// Server-level configuration read from environment variables.
pub struct ServerConfig {
    pub cors_allowed_origins: Vec<String>,
}

impl ServerConfig {
    /// The configuration read from the environment, given the value of
    /// `CORS_ALLOWED_ORIGINS` (`None` when it is not set): its comma-separated
    /// origins, trimmed, without empty ones; none when the variable is not set.
    pub fn from_env(cors_allowed_origins_var: Option<&str>) -> (r: Self)
        ensures
            match cors_allowed_origins_var {
                Some(v) => views(r.cors_allowed_origins@) == comma_list(v@),
                None => r.cors_allowed_origins@.len() == 0,
            },
    {
        match cors_allowed_origins_var {
            Some(v) => ServerConfig { cors_allowed_origins: parse_allowed_hosts(v) },
            None => ServerConfig { cors_allowed_origins: Vec::new() },
        }
    }
}

} // verus!
