//! The service directory.

use vstd::prelude::*;

verus! {

/// One entry of the directory: a service's name and where it is found.
#[derive(Debug)]
pub struct ServiceData {
    pub name: String,
    pub uri: String,
}

/// The service's settings: its name, the port it listens on, and the
/// directory it serves.
#[derive(Debug)]
pub struct Config {
    pub name: String,
    pub port: u16,
    pub services: Vec<ServiceData>,
}

/// The service directory.
#[derive(Debug)]
pub struct Service {
    pub config: Config,
}

impl Service {
    /// A service with these settings.
    pub fn create(config: Config) -> (r: Self)
        ensures
            r.config == config,
    {
        Service { config }
    }

    /// What answers a request for the directory: success, with the
    /// directory as the settings give it.
    pub fn services(&self) -> (r: (u16, &Vec<ServiceData>))
        ensures
            r.0 == 200,
            *r.1 == self.config.services,
    {
        (200, &self.config.services)
    }
}

} // verus!
