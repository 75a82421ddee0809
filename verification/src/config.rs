//! Configuration values: broker URL, environment, and schema-registry
//! host.  Loaded once at process start (the embedding program reads the
//! configuration file and hands the raw values in); immutable thereafter.

use crate::topic::Env;
use crate::topic::env_chars;
use vstd::prelude::*;

verus! {

/// The connector-wide configuration.
#[derive(Clone, Debug)]
pub struct Config {
    pub kafka_url: String,
    pub kafka_env: Env,
    pub proto_registry_host: String,
}

/// Why raw configuration values were rejected.
#[derive(Debug)]
pub enum ConfigError {
    /// The environment value names no environment; carries the message.
    InvalidEnv(String),
}

impl Config {
    /// Assembles the configuration from the raw values of the
    /// configuration file, validating the environment.
    pub fn init(kafka_url: String, kafka_env: &str, proto_registry_host: String) -> (r: Result<
        Config,
        ConfigError,
    >)
        ensures
            r is Ok <==> exists|e: Env| kafka_env@ == env_chars(e),
            r matches Ok(c) ==> {
                &&& c.kafka_url@ == kafka_url@
                &&& kafka_env@ == env_chars(c.kafka_env)
                &&& c.proto_registry_host@ == proto_registry_host@
            },
            r matches Err(ConfigError::InvalidEnv(m)) ==> m@ == "'"@ + kafka_env@
                + "' is not a valid value for topic::Env"@,
    {
        match Env::from_str(kafka_env) {
            Ok(env) => Ok(
                Config { kafka_url, kafka_env: env, proto_registry_host },
            ),
            Err(m) => Err(ConfigError::InvalidEnv(m)),
        }
    }
}

} // verus!
