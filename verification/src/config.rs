//! Settings that the user makes once for all requests.

use vstd::prelude::*;

verus! {

#[derive(Debug, PartialEq, Eq)]
pub struct Config {
    /// Hosts whose TLS certificates are accepted without validation. A host
    /// is matched by its exact name.
    pub ignore_certificate_hosts: Vec<String>,
}

impl Config {
    /// The settings of a user who has made none.
    pub fn new() -> (config: Config)
        ensures
            config.ignore_certificate_hosts@.len() == 0,
    {
        Config { ignore_certificate_hosts: Vec::new() }
    }
}

} // verus!
