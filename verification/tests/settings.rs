use patchwork::config::{load_config, Config, ConfigError, EnvFile};
use patchwork::crud::{Delete, Get};

#[test]
fn bind_address_defaults() {
    assert_eq!(
        load_config(EnvFile::Missing, None, Some("shard.sqlite".to_string())),
        Ok(Config { bind_addr: "127.0.0.1:3000".to_string(), shard_path: "shard.sqlite".to_string() })
    );
    assert_eq!(
        load_config(EnvFile::Loaded, Some("0.0.0.0:8080".to_string()), Some("s".to_string())),
        Ok(Config { bind_addr: "0.0.0.0:8080".to_string(), shard_path: "s".to_string() })
    );
}

#[test]
fn shard_path_is_required() {
    assert_eq!(load_config(EnvFile::Loaded, None, None), Err(ConfigError::MissingShardPath));
    assert_eq!(
        ConfigError::MissingShardPath.message(),
        "Set SHARD_PATH in .env or the environment"
    );
}

#[test]
fn unreadable_env_file_fails_first() {
    assert_eq!(
        load_config(EnvFile::Unreadable, None, Some("s".to_string())),
        Err(ConfigError::EnvFile)
    );
    assert_eq!(ConfigError::EnvFile.message(), "Could not load .env");
}

#[test]
fn crud_messages_carry_their_key() {
    assert_eq!(Get { id: 7 }.id, 7);
    assert_eq!(Delete { id: -3 }, Delete { id: -3 });
}
