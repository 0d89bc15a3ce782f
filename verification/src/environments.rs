//! Environments: how the answer to a lookup by name is read.

use crate::errors::{ApiClientError, EnvError};
use crate::schemas::Env;
use crate::text::concat3;
use vstd::prelude::*;

verus! {

/// The text of the error for an environment `env_name` that does not exist.
pub open spec fn env_not_found_text(env_name: Seq<char>) -> Seq<char> {
    "Environment "@ + env_name + " not found"@
}

/// Reads the answer to the lookup of the environment `env_name`: the first
/// environment listed, or why there is none.
pub fn get_env(listed: Result<Vec<Env>, ApiClientError>, env_name: &str) -> (r: Result<
    Env,
    EnvError,
>)
    ensures
        match listed {
            Ok(envs) => if envs@.len() > 0 {
                r == Ok::<Env, EnvError>(envs@[0])
            } else {
                r matches Err(EnvError::EnvNotFound(cause)) && cause@ == env_not_found_text(
                    env_name@,
                )
            },
            Err(_) => r matches Err(EnvError::ErrorGettingEnv(cause)) && cause@
                == "Error getting envs"@,
        },
{
    match listed {
        Ok(envs) => {
            let mut envs = envs;
            if envs.len() == 0 {
                Err(EnvError::EnvNotFound(concat3("Environment ", env_name, " not found")))
            } else {
                Ok(envs.swap_remove(0))
            }
        },
        Err(_) => Err(EnvError::ErrorGettingEnv("Error getting envs".to_owned())),
    }
}

} // verus!
