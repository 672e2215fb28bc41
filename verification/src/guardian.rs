//! The login service.

use vstd::prelude::*;

verus! {

/// Who logs in.
#[derive(Debug)]
pub struct User {
    pub name: String,
    pub password: String,
}

/// The service's settings: its name and the port it listens on.
#[derive(Debug)]
pub struct Config {
    pub name: String,
    pub port: u16,
}

/// The login service.
#[derive(Debug)]
pub struct Service {
    pub config: Config,
}

impl Service {
    /// A service with these settings.
    pub fn create(config: Config) -> (r: Self)
        ensures
            r.config == config,
    {
        Service { config }
    }

    /// The status that answers a login: success, whoever asks.
    pub fn login(&self) -> (status: u16)
        ensures
            status == 200,
    {
        200
    }
}

} // verus!
