//! The data plane's process settings. An optional `.env` file in the working
//! directory or a parent is loaded first; variables already exported win.
use vstd::prelude::*;

verus! {

/// What loading the `.env` file came to.
#[derive(Debug, Clone, Copy, PartialEq, Eq, Structural)]
pub enum EnvFile {
    Loaded,
    /// There is no such file, which is no error.
    Missing,
    /// The file exists but could not be read or parsed.
    Unreadable,
}

/// Why the settings could not be made.
#[derive(Debug, Clone, Copy, PartialEq, Eq, Structural)]
pub enum ConfigError {
    EnvFile,
    MissingShardPath,
}

/// The settings of the data plane.
#[derive(Debug, PartialEq)]
pub struct Config {
    /// The address to listen on.
    pub bind_addr: String,
    /// The shard's SQLite file; relative paths resolve from the working directory.
    pub shard_path: String,
}

/// The listening address where `BIND_ADDR` is not set.
pub open spec fn default_bind_addr() -> Seq<char> {
    "127.0.0.1:3000"@
}

impl ConfigError {
    /// The text that the process reports the error with.
    pub fn message(&self) -> (s: &'static str)
        ensures
            s@ == match *self {
                ConfigError::EnvFile => "Could not load .env"@,
                ConfigError::MissingShardPath => "Set SHARD_PATH in .env or the environment"@,
            },
    {
        match self {
            ConfigError::EnvFile => "Could not load .env",
            ConfigError::MissingShardPath => "Set SHARD_PATH in .env or the environment",
        }
    }
}

/// The settings from the `.env` outcome and the values of `BIND_ADDR` and
/// `SHARD_PATH` (`None` where unset): an unreadable `.env` file fails, then a
/// missing `SHARD_PATH`; `BIND_ADDR` defaults to `127.0.0.1:3000`.
pub fn load_config(env_file: EnvFile, bind_addr: Option<String>, shard_path: Option<String>) -> (r:
    Result<Config, ConfigError>)
    ensures
        env_file == EnvFile::Unreadable ==> r == Err::<Config, ConfigError>(ConfigError::EnvFile),
        env_file != EnvFile::Unreadable && shard_path is None ==> r == Err::<Config, ConfigError>(
            ConfigError::MissingShardPath,
        ),
        env_file != EnvFile::Unreadable && shard_path is Some ==> (r matches Ok(config)
            && config.shard_path == shard_path->0 && config.bind_addr@ == match bind_addr {
            Some(addr) => addr@,
            None => default_bind_addr(),
        }),
{
    if env_file == EnvFile::Unreadable {
        return Err(ConfigError::EnvFile);
    }
    let bind_addr = match bind_addr {
        Some(addr) => addr,
        None => String::from_str("127.0.0.1:3000"),
    };
    match shard_path {
        Some(shard_path) => Ok(Config { bind_addr, shard_path }),
        None => Err(ConfigError::MissingShardPath),
    }
}

} // verus!
