use vstd::prelude::*;
use vstd::string::StringExecFns;
use crate::error::{Error, Result};

verus! {

/// How much the program logs.
#[derive(Debug, Clone, Copy, PartialEq, Eq, Structural)]
pub enum LogLevel {
    Off,
    Error,
    Warn,
    Info,
    Debug,
    Trace,
}

/// The network parameters of a run.
#[derive(Debug, Clone, PartialEq, Eq)]
pub struct Config {
    /// The host name whose addresses are the peers.
    pub dns_seed: String,
    /// The port of the peers.
    pub network_port: u32,
    /// The network magic as hex digits.
    pub start_string: String,
    /// One of debug, error, trace, warn, off, info.
    pub log_level: String,
}

/// The level that a name gives; any unknown name gives `Info`.
pub open spec fn log_level_of(name: Seq<char>) -> LogLevel {
    if name == "debug"@ {
        LogLevel::Debug
    } else if name == "error"@ {
        LogLevel::Error
    } else if name == "trace"@ {
        LogLevel::Trace
    } else if name == "warn"@ {
        LogLevel::Warn
    } else if name == "off"@ {
        LogLevel::Off
    } else {
        LogLevel::Info
    }
}

/// A known log level name.
pub open spec fn is_log_level_name(name: Seq<char>) -> bool {
    name == "debug"@ || name == "error"@ || name == "trace"@ || name == "warn"@ || name == "off"@
        || name == "info"@
}

/// A port of the main network or of the test network.
pub open spec fn is_network_port(port: u32) -> bool {
    port == 8333 || port == 18333
}

/// The magic of the test network or of the main network.
pub open spec fn is_network_magic(s: Seq<char>) -> bool {
    s == "0b110907"@ || s == "f9beb4d9"@
}

/// Whether `s` holds the characters of `lit`.
fn equals_literal(s: &String, lit: &str) -> (r: bool)
    ensures
        r == (s@ == lit@),
{
    let other = String::from_str(lit);
    s.eq(&other)
}

impl Config {
    /// The log level that the configuration names; `Info` for an unknown name.
    pub fn get_log_level(&self) -> (r: LogLevel)
        ensures
            r == log_level_of(self.log_level@),
    {
        if equals_literal(&self.log_level, "debug") {
            LogLevel::Debug
        } else if equals_literal(&self.log_level, "error") {
            LogLevel::Error
        } else if equals_literal(&self.log_level, "trace") {
            LogLevel::Trace
        } else if equals_literal(&self.log_level, "warn") {
            LogLevel::Warn
        } else if equals_literal(&self.log_level, "off") {
            LogLevel::Off
        } else {
            LogLevel::Info
        }
    }

    /// Checks the log level, then the port, then the network magic.
    pub fn validate(&self) -> (r: Result<()>)
        ensures
            !is_log_level_name(self.log_level@) ==> (r matches Err(Error::ConfigDataEror(m)) && m@
                == "Invalid log level."@),
            is_log_level_name(self.log_level@) && !is_network_port(self.network_port) ==> (r matches Err(
                Error::ConfigDataEror(m),
            ) && m@ == "Invalid network port."@),
            is_log_level_name(self.log_level@) && is_network_port(self.network_port)
                && !is_network_magic(self.start_string@) ==> (r matches Err(
                Error::ConfigDataEror(m),
            ) && m@ == "Invalid start string"@),
            is_log_level_name(self.log_level@) && is_network_port(self.network_port)
                && is_network_magic(self.start_string@) ==> r is Ok,
    {
        let level = &self.log_level;
        if !(equals_literal(level, "debug") || equals_literal(level, "error") || equals_literal(
            level,
            "trace",
        ) || equals_literal(level, "warn") || equals_literal(level, "off") || equals_literal(
            level,
            "info",
        )) {
            return Err(Error::ConfigDataEror(String::from_str("Invalid log level.")));
        }
        if self.network_port != 8333 && self.network_port != 18333 {
            return Err(Error::ConfigDataEror(String::from_str("Invalid network port.")));
        }
        if !(equals_literal(&self.start_string, "0b110907") || equals_literal(
            &self.start_string,
            "f9beb4d9",
        )) {
            return Err(Error::ConfigDataEror(String::from_str("Invalid start string")));
        }
        Ok(())
    }
}

} // verus!
