use vstd::prelude::*;

use crate::config::Config;

verus! {

/// Why the settings file could not be read or written.
#[derive(Clone, Copy, Debug, PartialEq, Eq, Structural)]
pub enum ConfigIoError {
    /// There is no settings file, or it could not be opened.
    Unreadable,
    /// The file does not hold a configuration.
    Malformed,
    /// The file could not be created or written.
    Unwritable,
}

/// Reads the persisted configuration.
pub trait SettingReader {
    fn read_from_file(&self) -> Result<Config, ConfigIoError>;
}

/// Persists the configuration.
pub trait SettingWriter {
    fn write_to_file(&self, config: &Config) -> Result<(), ConfigIoError>;
}

} // verus!
