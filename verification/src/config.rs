//! Decisions taken while loading the server configuration.

use vstd::prelude::*;
use vstd::string::*;

use crate::numbers::{parse_u64, spec_parse_u64};

verus! {

/// Why the configuration could not be loaded.
#[derive(Debug)]
pub enum LoadConfigError {
    /// A certificate or key file could not be opened; carries the message.
    ReadingParameterPaths(String),
    /// The certificate chain or keys could not be read; carries the message.
    BuildingChain(String),
    MissingAllConfigFiles,
    MissingKeys,
    ConfigCrateError,
}

/// The message of a configuration error.
pub open spec fn spec_load_config_message(e: LoadConfigError) -> Seq<char> {
    match e {
        LoadConfigError::ReadingParameterPaths(m) =>
            "Could not access files at the provided path: "@ + m@,
        LoadConfigError::BuildingChain(m) => "An Error occurred while building Keychain: "@ + m@,
        LoadConfigError::MissingKeys => "Missing PEM files"@,
        LoadConfigError::MissingAllConfigFiles =>
            "No config files were found in the standard paths. Cannot operate without information about certificate paths."@,
        LoadConfigError::ConfigCrateError =>
            "An unexpected error occured while parsing your configuration. Maybe you specified the wrong data types?"@,
    }
}

impl LoadConfigError {
    /// The human-readable description of the error.
    pub fn message(&self) -> (m: String)
        ensures
            m@ == spec_load_config_message(*self),
    {
        match self {
            LoadConfigError::ReadingParameterPaths(e) => crate::text::join2(
                "Could not access files at the provided path: ",
                e.as_str(),
            ),
            LoadConfigError::BuildingChain(e) => crate::text::join2(
                "An Error occurred while building Keychain: ",
                e.as_str(),
            ),
            LoadConfigError::MissingKeys => String::from_str("Missing PEM files"),
            LoadConfigError::MissingAllConfigFiles => String::from_str(
                "No config files were found in the standard paths. Cannot operate without information about certificate paths.",
            ),
            LoadConfigError::ConfigCrateError => String::from_str(
                "An unexpected error occured while parsing your configuration. Maybe you specified the wrong data types?",
            ),
        }
    }
}

/// Which configuration file is read.
#[derive(Debug, Clone, Copy, PartialEq, Eq, Structural)]
pub enum ConfigFile {
    /// `~/.config/einkaufsliste/backend.toml`
    Home,
    /// `./backend.toml`
    Local,
}

/// The per-user file wins over the local one; without either the server
/// cannot find its certificates.
pub fn select_config_file(home_exists: bool, local_exists: bool) -> (r: Result<
    ConfigFile,
    LoadConfigError,
>)
    ensures
        home_exists ==> r == Ok::<ConfigFile, LoadConfigError>(ConfigFile::Home),
        !home_exists && local_exists ==> r == Ok::<ConfigFile, LoadConfigError>(ConfigFile::Local),
        !home_exists && !local_exists ==> r matches Err(LoadConfigError::MissingAllConfigFiles),
{
    if home_exists {
        Ok(ConfigFile::Home)
    } else if !local_exists {
        Err(LoadConfigError::MissingAllConfigFiles)
    } else {
        Ok(ConfigFile::Local)
    }
}

/// Seconds a login stays valid when the configuration does not say: thirty days.
pub const DEFAULT_COOKIE_TIMEOUT: u64 = 2592000;

/// The cookie timeout: the configured number of seconds, or the default when
/// none is configured; `None` when the configured value is not a number.
pub fn cookie_timeout(setting: Option<&str>) -> (r: Option<u64>)
    ensures
        setting is None ==> r == Some(DEFAULT_COOKIE_TIMEOUT),
        setting matches Some(s) ==> r == spec_parse_u64(s@),
{
    match setting {
        None => Some(DEFAULT_COOKIE_TIMEOUT),
        Some(s) => parse_u64(s),
    }
}

/// The server uses the first private key found; having none is an error.
pub fn first_private_key(keys: Vec<Vec<u8>>) -> (r: Result<Vec<u8>, LoadConfigError>)
    ensures
        keys@.len() == 0 ==> r matches Err(LoadConfigError::MissingKeys),
        keys@.len() > 0 ==> (r matches Ok(k) && k@ == keys@[0]@),
{
    let mut keys = keys;
    if keys.len() == 0 {
        Err(LoadConfigError::MissingKeys)
    } else {
        Ok(keys.remove(0))
    }
}

} // verus!
