//! The node's start-up configuration and how a loaded configuration file is
//! turned into the result the node starts from.

use vstd::prelude::*;

use crate::keys::{generate_random_key, is_key_char};

verus! {

/// The start-up configuration, as stored in `config.yml`.
#[derive(Debug, Clone, PartialEq, Eq)]
pub struct Config {
    pub ws_port: u32,
    pub ws_keymode: String,
    pub server_name: String,
    pub http_port: u16,
    /// Addresses of other nodes to dial at start-up.
    pub boot_nodes: Vec<String>,
    pub ipfs_api_port: String,
}

/// A named economy and its key.
#[derive(Debug, Clone, PartialEq, Eq)]
pub struct EconomyInfo {
    pub economy_name: String,
    pub key: String,
}

/// The WebSocket port a fresh configuration uses.
pub const DEFAULT_WS_PORT: u32 = 20102;

/// The HTTP port a fresh configuration uses.
pub const DEFAULT_HTTP_PORT: u16 = 20103;

/// The length of the random server name of a fresh configuration.
pub const SERVER_NAME_LEN: usize = 16;

/// The configuration written when no file exists yet, for a given server name.
pub open spec fn is_default_config(c: Config, server_name: Seq<char>) -> bool {
    &&& c.ws_port == DEFAULT_WS_PORT
    &&& c.http_port == DEFAULT_HTTP_PORT
    &&& c.ws_keymode@ == "AES-128"@
    &&& c.server_name@ == server_name
    &&& c.boot_nodes@.len() == 0
    &&& c.ipfs_api_port@ == "5001"@
}

/// The fresh configuration for the given server name.
pub fn default_config(server_name: String) -> (c: Config)
    ensures
        is_default_config(c, server_name@),
{
    Config {
        ws_port: DEFAULT_WS_PORT,
        http_port: DEFAULT_HTTP_PORT,
        ws_keymode: "AES-128".to_owned(),
        server_name,
        boot_nodes: Vec::new(),
        ipfs_api_port: "5001".to_owned(),
    }
}

/// A fresh configuration whose server name is a random 16-character key of
/// lowercase letters and digits.
pub fn new_default_config() -> (c: Config)
    ensures
        is_default_config(c, c.server_name@),
        c.server_name@.len() == SERVER_NAME_LEN,
        forall|i: int| 0 <= i < SERVER_NAME_LEN ==> #[trigger] is_key_char(c.server_name@[i]),
{
    let key = generate_random_key(SERVER_NAME_LEN);
    default_config(key)
}

/// What came of reading and parsing the configuration file; `E` is the
/// error the reader or the parser gave.
#[derive(Debug, Clone, PartialEq, Eq)]
pub enum ConfigSource<E> {
    /// The file could not be opened or read.
    Unreadable(E),
    /// The file was read but is not a valid configuration.
    Malformed(E),
    /// The file held this configuration.
    Parsed(Config),
}

/// Why the configuration could not be loaded, with the error itself.
#[derive(Debug, Clone, PartialEq, Eq)]
pub enum ConfigError<E> {
    Io(E),
    Yaml(E),
}

/// The configuration loaded from a file, or the error that stopped it.
pub fn read_yml_to_str<E>(source: ConfigSource<E>) -> (r: Result<Config, ConfigError<E>>)
    ensures
        match source {
            ConfigSource::Parsed(c) => r == Ok::<Config, ConfigError<E>>(c),
            ConfigSource::Unreadable(e) => r == Err::<Config, ConfigError<E>>(ConfigError::Io(e)),
            ConfigSource::Malformed(e) => r == Err::<Config, ConfigError<E>>(ConfigError::Yaml(e)),
        },
{
    match source {
        ConfigSource::Parsed(c) => Ok(c),
        ConfigSource::Unreadable(e) => Err(ConfigError::Io(e)),
        ConfigSource::Malformed(e) => Err(ConfigError::Yaml(e)),
    }
}

} // verus!
