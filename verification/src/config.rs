//! Configuration values the surrounding program resolves (from its
//! environment) and hands in.

use vstd::prelude::*;

verus! {

/// Application configuration.
#[derive(Debug)]
pub struct Config {
    /// Database host.
    pub db_host: String,
    /// Database name.
    pub db_name: String,
    /// Identifier of the secret holding database credentials.
    pub db_secret_arn: String,
    /// Cloud region.
    pub aws_region: String,
    /// Agent endpoint, when configured.
    pub agentcore_endpoint: Option<String>,
}

} // verus!
