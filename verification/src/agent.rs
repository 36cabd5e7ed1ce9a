//! The agent: what it is told to do, settled from its settings.
//!
//! The agent serves events on its listen address unless that is disabled, and
//! pulls its manifest on a schedule if it has one.

use crate::config::{
    default_settings, environment_settings, overlay, AgentConfig, AgentEnvironment, AgentSettings,
    ConfigError,
};
use crate::util::{generate_duration, nanos_below_a_second, splayed, whole_seconds};
use core::time::Duration;
use vstd::prelude::*;

verus! {

/// The agent, as started from the command line.
#[derive(Debug, Clone, PartialEq, Eq)]
pub struct Agent {
    /// Where the configuration file is, if one was named.
    pub config_path: Option<String>,
}

/// The settings that a configuration file gives; nothing where there is none.
pub open spec fn file_settings(file: Option<&AgentConfig>) -> AgentSettings {
    match file {
        Some(config) => config@,
        None => AgentSettings {
            listen_port: None,
            listen_address: None,
            disable_listen: None,
            interval: None,
            splay: None,
            manifest: None,
        },
    }
}

/// Where the agent listens.
#[derive(Debug, Clone, PartialEq, Eq)]
pub struct Endpoint {
    pub address: String,
    pub port: u64,
}

impl Agent {
    /// The settings in force: the defaults, overlaid by those of the
    /// configuration file, overlaid by those of the environment.
    pub fn settings(&self, file: Option<&AgentConfig>, env: &AgentEnvironment) -> (r: Result<
        AgentConfig,
        ConfigError,
    >)
        ensures
            match r {
                Ok(config) => environment_settings(*env) matches Ok(over) && config@ == overlay(
                    overlay(default_settings(), file_settings(file)),
                    over,
                ),
                Err(e) => environment_settings(*env) == Err::<AgentSettings, ConfigError>(e),
            },
    {
        let mut config = AgentConfig::new();
        match file {
            Some(given) => {
                config.merge_with(given);
            },
            None => {},
        }
        match config.merge_environment(env) {
            Ok(_) => Ok(config),
            Err(e) => Err(e),
        }
    }
}

impl AgentConfig {
    /// Whether the agent serves events: unless listening is disabled.
    pub fn listens(&self) -> (r: bool)
        ensures
            r == (self.disable_listen != Some(true)),
    {
        match self.disable_listen {
            Some(true) => false,
            _ => true,
        }
    }

    /// Where the agent listens, if both address and port are given.
    pub fn endpoint(&self) -> (r: Option<Endpoint>)
        ensures
            match r {
                Some(endpoint) => self.listen_port == Some(endpoint.port)
                    && self@.listen_address == Some(endpoint.address@),
                None => self.listen_port is None || self.listen_address is None,
            },
    {
        match (&self.listen_address, self.listen_port) {
            (Some(address), Some(port)) => Some(Endpoint { address: address.clone(), port }),
            _ => None,
        }
    }

    /// Whether the agent pulls a manifest on a schedule: if it has one.
    pub fn pulls(&self) -> (r: bool)
        ensures
            r == self.manifest is Some,
    {
        self.manifest.is_some()
    }

    /// How long to wait before the next pull. `None` where interval or splay
    /// is not given, or where they are too large for the seconds to be
    /// counted.
    pub fn pull_delay(&self) -> (r: Option<Duration>)
        ensures
            match r {
                Some(d) => self.interval matches Some(interval) && self.splay matches Some(splay)
                    && interval * 60 + splay <= i64::MAX && nanos_below_a_second(d) == 0
                    && exists|offset: int|
                    -splay <= offset <= splay && whole_seconds(d) == #[trigger] splayed(
                        interval as int,
                        offset,
                    ),
                None => !(self.interval matches Some(interval) && self.splay matches Some(splay)
                    && interval * 60 + splay <= i64::MAX),
            },
    {
        let interval: u64 = match self.interval {
            Some(interval) => interval,
            None => {
                return None;
            },
        };
        let splay: u64 = match self.splay {
            Some(splay) => splay,
            None => {
                return None;
            },
        };
        let limit: u64 = 0x7fff_ffff_ffff_ffff;
        if interval > limit / 60 {
            return None;
        }
        if splay > limit - interval * 60 {
            return None;
        }
        Some(generate_duration(interval, splay))
    }
}

} // verus!
