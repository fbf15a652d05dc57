//! The configuration: where mail is sent, from which account, and where the web server listens.

use crate::errors::{ConfigLoadError, IoError};
use vstd::prelude::*;

verus! {

/// The file that holds the configuration.
pub const CONFIG_FILE: &'static str = "cfg.toml";

/// The configuration of the notifier.
#[derive(Debug)]
pub struct Config {
    pub credentials: Credentials,
    pub recipients: Vec<String>,
    /// The address that the web server listens on, with its port.
    pub webserver_address: String,
}

/// The account that mail is sent from.
#[derive(Debug)]
pub struct Credentials {
    pub username: String,
    pub password: String,
    pub domain: String,
}

impl Credentials {
    /// The user name and the password that an SMTP client logs in with.
    pub fn into(self) -> (login: (String, String))
        ensures
            login == (self.username, self.password),
    {
        (self.username, self.password)
    }
}

/// What becomes of a file that was read, or could not be, and that holds a configuration, or
/// does not.
pub open spec fn config_result(read: Result<Result<Config, String>, IoError>) -> Result<
    Config,
    ConfigLoadError,
> {
    match read {
        Ok(Ok(config)) => Ok(config),
        Ok(Err(message)) => Err(ConfigLoadError::Toml(message)),
        Err(error) => Err(ConfigLoadError::Io(error)),
    }
}

/// How loading the configuration has ended: the file was read, or could not be; it holds a
/// configuration, or does not.
pub fn load_config(read: Result<Result<Config, String>, IoError>) -> (loaded: Result<
    Config,
    ConfigLoadError,
>)
    ensures
        loaded == config_result(read),
{
    match read {
        Ok(Ok(config)) => Ok(config),
        Ok(Err(message)) => Err(ConfigLoadError::Toml(message)),
        Err(error) => Err(ConfigLoadError::from(error)),
    }
}

} // verus!
