//! The configuration, and what to do with the outcome of loading it.

use vstd::prelude::*;

verus! {

/// The configuration. It has no settings yet.
#[derive(Debug, Clone)]
pub struct Config {}

impl Default for Config {
    fn default() -> (r: Self)
        ensures
            r == (Config {  }),
    {
        Config {  }
    }
}

/// Why a configuration could not be loaded.
pub enum LoadError<E> {
    /// No file stands at the path.
    NotFound,
    /// Anything else: the file cannot be read or does not hold a configuration.
    Other(E),
}

/// What follows an attempt to load the configuration.
pub enum InitStep<E> {
    /// The configuration was loaded: use it.
    Ready(Config),
    /// No file was found: save this configuration at the path, then use it.
    Create(Config),
    /// Loading failed for another reason: give up with that error.
    Fail(E),
}

impl Config {
    /// Decides what follows an attempt to load the configuration: a loaded
    /// one is used, a missing file is made from the default configuration,
    /// and any other failure is handed on.
    pub fn load_or_init<E>(loaded: Result<Config, LoadError<E>>) -> (step: InitStep<E>)
        ensures
            step == (match loaded {
                Ok(config) => InitStep::Ready(config),
                Err(LoadError::NotFound) => InitStep::Create(Config {  }),
                Err(LoadError::Other(e)) => InitStep::Fail(e),
            }),
    {
        match loaded {
            Ok(config) => InitStep::Ready(config),
            Err(LoadError::NotFound) => InitStep::Create(Config::default()),
            Err(LoadError::Other(e)) => InitStep::Fail(e),
        }
    }
}

} // verus!
