//! The persisted configuration and what to do with what is found on disk.

use vstd::prelude::*;

verus! {

/// The persisted configuration. It has no options yet.
#[derive(Clone, Copy, Debug, PartialEq, Eq, Structural)]
pub struct Config {}

/// What was found at the place of the configuration file.
#[derive(Clone, Copy, Debug, PartialEq, Eq, Structural)]
pub enum StoredConfig {
    /// There is no file.
    Missing,
    /// There is a file, and it cannot be read as a configuration.
    Malformed,
    /// There is a file, and it holds this configuration.
    Parsed(Config),
}

/// The outcome of loading the configuration.
#[derive(Clone, Copy, Debug, PartialEq, Eq, Structural)]
pub struct Loaded {
    /// The configuration that the session uses.
    pub config: Config,
    /// Whether the file has to be written anew with `config`.
    pub rewrite: bool,
}

impl Default for Config {
    /// The default configuration.
    fn default() -> (config: Config)
        ensures
            config == (Config {  }),
    {
        Config {  }
    }
}

impl Config {
    /// What loading makes of `stored`.
    pub open spec fn loaded(stored: StoredConfig) -> Loaded {
        match stored {
            StoredConfig::Parsed(config) => Loaded { config, rewrite: false },
            _ => Loaded { config: Config {  }, rewrite: true },
        }
    }

    /// Decides which configuration a session uses. A configuration that was
    /// read from the file is used as it is. Where the file is missing or
    /// cannot be read as a configuration, the default is used and the file
    /// is to be written anew with it; the fault is not reported.
    pub fn load(stored: StoredConfig) -> (loaded: Loaded)
        ensures
            loaded == Config::loaded(stored),
    {
        match stored {
            StoredConfig::Parsed(config) => Loaded { config, rewrite: false },
            _ => Loaded { config: Config::default(), rewrite: true },
        }
    }
}

} // verus!
