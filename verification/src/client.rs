//! Client-side startup: all a client needs from the configuration is the
//! server endpoint it announces itself to; connecting is the caller's
//! work.

use crate::{Config, ConfigClient, ConfigError};
use vstd::prelude::*;

verus! {

/// Check the configuration a client starts from and hand back the server
/// endpoint to connect to; without a client section there is nothing to
/// connect to and startup fails.
pub fn start(config: &Config) -> (r: Result<&ConfigClient, ConfigError>)
    ensures
        match config.client {
            Some(_) => r matches Ok(c) && config.client == Some(*c),
            None => r == Result::<&ConfigClient, ConfigError>::Err(
                ConfigError::MissingClientSection,
            ),
        },
{
    match &config.client {
        Some(c) => Ok(c),
        None => Err(ConfigError::MissingClientSection),
    }
}

} // verus!
