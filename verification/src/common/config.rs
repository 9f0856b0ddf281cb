//! The configuration of the process, read once when it starts.

use vstd::prelude::*;
use vstd::string::StringExecFns;

verus! {

/// What the process runs with.
#[derive(Clone, Debug, PartialEq, Eq)]
pub struct Config {
    /// The shared secret from which the signing keys are derived.
    pub secret: String,
    /// The origin whose requests the server allows.
    pub origin: String,
    /// The address on which the server listens.
    pub address: String,
}

/// Why the process cannot start.
#[derive(Clone, Copy, Debug, PartialEq, Eq, Structural)]
pub enum ConfigError {
    /// No signing secret is set.
    MissingSecret,
}

/// The origin that is allowed where none is set.
pub open spec fn default_origin() -> Seq<char> {
    "https://storage.googleapis.com"@
}

/// The port that is bound where none is set.
pub open spec fn default_port() -> Seq<char> {
    "8080"@
}

/// The address that listens on `port` on every interface.
pub open spec fn listen_address(port: Seq<char>) -> Seq<char> {
    "0.0.0.0:"@ + port
}

/// A setting, or its default where it is not set.
pub open spec fn setting_or(setting: Option<String>, default: Seq<char>) -> Seq<char> {
    match setting {
        Some(text) => text@,
        None => default,
    }
}

/// Makes the configuration from the three settings of the environment. A
/// missing secret is fatal; a missing origin and a missing port have
/// defaults.
pub fn configure(secret: Option<String>, origin: Option<String>, port: Option<String>) -> (config:
    Result<Config, ConfigError>)
    ensures
        match secret {
            None => config == Err::<Config, ConfigError>(ConfigError::MissingSecret),
            Some(text) => config matches Ok(made) && made.secret == text && made.origin@
                == setting_or(origin, default_origin()) && made.address@ == listen_address(
                setting_or(port, default_port()),
            ),
        },
{
    let secret = match secret {
        Some(text) => text,
        None => {
            return Err(ConfigError::MissingSecret);
        },
    };
    let origin = match origin {
        Some(text) => text,
        None => "https://storage.googleapis.com".to_string(),
    };
    let mut address = "0.0.0.0:".to_string();
    match port {
        Some(text) => address.append(text.as_str()),
        None => address.append("8080"),
    }
    Ok(Config { secret, origin, address })
}

} // verus!
