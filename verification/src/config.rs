//! The configuration: which services are tracked.

use vstd::prelude::*;

verus! {

/// The services to track. Where no list is given, only the host is
/// monitored.
#[derive(Clone, Debug, PartialEq, Eq)]
pub struct Services {
    pub list: Option<Vec<String>>,
}

/// What the configuration file holds.
#[derive(Clone, Debug, PartialEq, Eq)]
pub struct Config {
    pub services: Services,
}

/// Holds the configuration once it has been read.
#[derive(Clone, Debug, PartialEq, Eq)]
pub struct ConfigParser {
    pub config: Config,
}

impl ConfigParser {
    /// Holds `config`, the configuration that was read, or, where there is
    /// no configuration file, one without a list of services.
    pub fn new(config: Option<Config>) -> (parser: Self)
        ensures
            parser.config == match config {
                Some(config) => config,
                None => Config { services: Services { list: None } },
            },
    {
        match config {
            Some(config) => ConfigParser { config },
            None => ConfigParser { config: Config { services: Services { list: None } } },
        }
    }

    pub fn get_config(&self) -> (config: &Config)
        ensures
            *config == self.config,
    {
        &self.config
    }

    pub fn get_config_services(&self) -> (services: &Option<Vec<String>>)
        ensures
            *services == self.config.services.list,
    {
        &self.config.services.list
    }
}

} // verus!
