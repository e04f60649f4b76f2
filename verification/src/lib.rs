//! Core of a software KVM: one keyboard and mouse drive several machines
//! laid out as adjacent screens. This library holds the verified parts:
//! the fixed-length wire codec, the client registry, the active-screen
//! arbiter, the dispatch decisions, and the configuration model. All
//! input capture, sockets, logging and configuration loading live outside
//! the library and hand it plain values.

use vstd::prelude::*;

pub mod arbiter;
pub mod client;
pub mod dispatch;
pub mod protocol;
pub mod registry;

use vstd::string::StringExecFns;

verus! {

/// Configuration read once at process start: the mode this machine runs
/// in, and the section that mode needs.
#[derive(Debug)]
pub struct Config {
    pub mode: String,
    pub server: Option<ConfigServer>,
    pub client: Option<ConfigClient>,
}

/// Where a server binds its socket.
#[derive(Debug)]
pub struct ConfigServer {
    pub ip: String,
    pub port: u16,
}

/// Which server a client connects to.
#[derive(Debug)]
pub struct ConfigClient {
    pub server_ip: String,
    pub server_port: u16,
}

/// Local screen resolution in pixels; read once at startup and then
/// only consulted for the arbiter's edge threshold.
#[derive(Debug)]
pub struct Display {
    pub width: u64,
    pub height: u64,
}

impl Display {
    pub fn new(width: u64, height: u64) -> (d: Display)
        ensures
            d.width == width,
            d.height == height,
    {
        Display { width, height }
    }
}

/// Which service the configuration selects.
#[derive(Debug, Clone, Copy, PartialEq, Eq, Structural)]
pub enum Mode {
    Server,
    Client,
}

/// A configuration the service cannot start from; fatal at startup.
#[derive(Debug, Clone, Copy, PartialEq, Eq, Structural)]
pub enum ConfigError {
    /// The mode is neither "server" nor "client".
    UnsupportedMode,
    /// Server mode without a server section.
    MissingServerSection,
    /// Client mode without a client section.
    MissingClientSection,
}

/// Decide from the configuration which service to start. Exactly the
/// mode "server" with a server section starts the server, exactly the
/// mode "client" with a client section starts the client; everything
/// else is a fatal configuration error, told apart for the diagnostic.
pub fn start(config: &Config) -> (r: Result<Mode, ConfigError>)
    ensures
        config.mode@ == "server"@ ==> r == (match config.server {
            Some(_) => Result::<Mode, ConfigError>::Ok(Mode::Server),
            None => Result::<Mode, ConfigError>::Err(ConfigError::MissingServerSection),
        }),
        config.mode@ == "client"@ ==> r == (match config.client {
            Some(_) => Result::<Mode, ConfigError>::Ok(Mode::Client),
            None => Result::<Mode, ConfigError>::Err(ConfigError::MissingClientSection),
        }),
        config.mode@ != "server"@ && config.mode@ != "client"@
            ==> r == Result::<Mode, ConfigError>::Err(ConfigError::UnsupportedMode),
{
    proof {
        reveal_strlit("server");
        reveal_strlit("client");
        assert("server"@[0] == 's' && "client"@[0] == 'c');
        assert("server"@ != "client"@);
    }
    if config.mode == String::from_str("server") {
        match config.server {
            Some(_) => Ok(Mode::Server),
            None => Err(ConfigError::MissingServerSection),
        }
    } else if config.mode == String::from_str("client") {
        match config.client {
            Some(_) => Ok(Mode::Client),
            None => Err(ConfigError::MissingClientSection),
        }
    } else {
        Err(ConfigError::UnsupportedMode)
    }
}

} // verus!
