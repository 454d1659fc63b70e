//! The startup decision: which environment values let the process reach a
//! ready state, and with which configuration.
//!
//! The process reads two optional environment values.  `LOG_LEVEL` defaults
//! to `info` when absent and must otherwise be a recognized level token;
//! the provider key must be present.  Any other combination refuses startup,
//! so no request is ever served without a key.

use vstd::prelude::*;

use crate::log_level::{spec_parse_log_level, parse_log_level, LogLevel};

verus! {

/// Why the process refused to start.
#[derive(Clone, Copy, Debug, PartialEq, Eq, Structural)]
pub enum StartupError {
    /// The provider key is absent from the environment.
    MissingApiKey,
    /// `LOG_LEVEL` is set but is not a recognized level token.
    InvalidLogLevel,
}

/// The configuration a started process runs with.
#[derive(Clone, Debug, PartialEq, Eq)]
pub struct Config {
    pub api_key: String,
    pub log_level: LogLevel,
}

/// The startup decision over the two environment values: the log level is
/// examined first, as the logging facility is installed before the provider
/// client is built.
pub open spec fn spec_startup(api_key: Option<Seq<char>>, log_level_var: Option<Seq<char>>) -> Result<
    (Seq<char>, LogLevel),
    StartupError,
> {
    let level = match log_level_var {
        None => Some(LogLevel::Info),
        Some(v) => spec_parse_log_level(v),
    };
    match level {
        None => Err(StartupError::InvalidLogLevel),
        Some(l) => match api_key {
            None => Err(StartupError::MissingApiKey),
            Some(k) => Ok((k, l)),
        },
    }
}

/// Decides whether the process may start, given the provider key and the
/// `LOG_LEVEL` value as read from the environment (`None` for an unset
/// variable).
pub fn startup(api_key: Option<String>, log_level_var: Option<String>) -> (r: Result<
    Config,
    StartupError,
>)
    ensures
        ({
            let decision = spec_startup(api_key.deep_view(), log_level_var.deep_view());
            match r {
                Ok(c) => decision matches Ok(p) && c.api_key@ == p.0 && c.log_level == p.1,
                Err(e) => decision matches Err(d) && e == d,
            }
        }),
{
    let level = match log_level_var {
        None => Some(LogLevel::Info),
        Some(v) => parse_log_level(v.as_str()),
    };
    match level {
        None => Err(StartupError::InvalidLogLevel),
        Some(l) => match api_key {
            None => Err(StartupError::MissingApiKey),
            Some(k) => Ok(Config { api_key: k, log_level: l }),
        },
    }
}

/// Law: without a provider key the process never reaches a ready state,
/// whatever `LOG_LEVEL` holds.
pub proof fn lemma_missing_api_key_blocks_startup(log_level_var: Option<Seq<char>>)
    ensures
        spec_startup(None, log_level_var) is Err,
{
}

} // verus!
