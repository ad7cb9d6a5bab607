//! Shared configuration of the resource clients.

use vstd::prelude::*;
use vstd::string::*;

verus! {

/// Configuration shared by every resource client.
#[derive(Clone, Debug)]
pub struct Configuration {
    /// Scheme, host and version prefix that every endpoint URL starts with,
    /// without a trailing slash.
    pub base_url: String,
}

impl Configuration {
    /// Creates a configuration whose endpoints all live under `base_url`.
    pub fn new(base_url: &str) -> (config: Configuration)
        ensures
            config.base_url@ == base_url@,
    {
        Configuration { base_url: String::from_str(base_url) }
    }

    /// Returns the URL prefix shared by all endpoints.
    pub fn get_base_url(&self) -> (url: String)
        ensures
            url@ == self.base_url@,
    {
        self.base_url.clone()
    }
}

/// Entry point from which the resource clients are made.
#[derive(Clone, Debug)]
pub struct SquareClient {
    /// Configuration handed on to every resource client.
    pub config: Configuration,
}

impl SquareClient {
    /// Creates a client for the given configuration.
    pub fn new(config: Configuration) -> (client: SquareClient)
        ensures
            client.config == config,
    {
        SquareClient { config }
    }
}

} // verus!
