//! Agent settings: built-in defaults, overlaid by a configuration file, overlaid
//! by the process environment.

use crate::text::{decimal_u64, parse_u64, same_text};
use vstd::prelude::*;

verus! {

/// Settings of the agent. A field that is `None` is "not given" and never
/// overrides a value that another layer supplied.
#[derive(Debug, Clone)]
pub struct AgentConfig {
    pub listen_port: Option<u64>,
    pub listen_address: Option<String>,
    pub disable_listen: Option<bool>,
    pub interval: Option<u64>,
    pub splay: Option<u64>,
    pub manifest: Option<String>,
}

/// Mathematical value of an [`AgentConfig`].
pub struct AgentSettings {
    pub listen_port: Option<u64>,
    pub listen_address: Option<Seq<char>>,
    pub disable_listen: Option<bool>,
    pub interval: Option<u64>,
    pub splay: Option<u64>,
    pub manifest: Option<Seq<char>>,
}

/// The characters of an optional string.
pub open spec fn text_of(s: Option<String>) -> Option<Seq<char>> {
    match s {
        Some(t) => Some(t@),
        None => None,
    }
}

/// `over` where it is given, else `base`.
pub open spec fn prefer<T>(over: Option<T>, base: Option<T>) -> Option<T> {
    if over is Some {
        over
    } else {
        base
    }
}

/// The settings the agent starts from.
pub open spec fn default_settings() -> AgentSettings {
    AgentSettings {
        listen_port: Some(1336u64),
        listen_address: Some("0.0.0.0"@),
        disable_listen: Some(false),
        interval: Some(30u64),
        splay: Some(0u64),
        manifest: None,
    }
}

/// `base` overlaid by `over`: each field of `over` that is given wins.
pub open spec fn overlay(base: AgentSettings, over: AgentSettings) -> AgentSettings {
    AgentSettings {
        listen_port: prefer(over.listen_port, base.listen_port),
        listen_address: prefer(over.listen_address, base.listen_address),
        disable_listen: prefer(over.disable_listen, base.disable_listen),
        interval: prefer(over.interval, base.interval),
        splay: prefer(over.splay, base.splay),
        manifest: prefer(over.manifest, base.manifest),
    }
}

impl View for AgentConfig {
    type V = AgentSettings;

    open spec fn view(&self) -> AgentSettings {
        AgentSettings {
            listen_port: self.listen_port,
            listen_address: text_of(self.listen_address),
            disable_listen: self.disable_listen,
            interval: self.interval,
            splay: self.splay,
            manifest: text_of(self.manifest),
        }
    }
}

fn copy_text(s: &Option<String>) -> (r: Option<String>)
    ensures
        text_of(r) == text_of(*s),
{
    match s {
        Some(t) => Some(t.clone()),
        None => None,
    }
}

impl AgentConfig {
    /// The default settings: listen on `0.0.0.0:1336`, pull every 30 minutes
    /// without splay, no manifest.
    pub fn new() -> (config: AgentConfig)
        ensures
            config@ == default_settings(),
    {
        AgentConfig {
            listen_port: Some(1336),
            listen_address: Some("0.0.0.0".to_string()),
            disable_listen: Some(false),
            interval: Some(30),
            splay: Some(0),
            manifest: None,
        }
    }

    /// Overlays `other`, as read from a configuration file, on these settings.
    pub fn merge_with(&mut self, other: &AgentConfig)
        ensures
            final(self)@ == overlay(old(self)@, other@),
    {
        if let Some(listen_port) = other.listen_port {
            self.listen_port = Some(listen_port);
        }
        if other.listen_address.is_some() {
            self.listen_address = copy_text(&other.listen_address);
        }
        if let Some(disable_listen) = other.disable_listen {
            self.disable_listen = Some(disable_listen);
        }
        if let Some(interval) = other.interval {
            self.interval = Some(interval);
        }
        if let Some(splay) = other.splay {
            self.splay = Some(splay);
        }
        if other.manifest.is_some() {
            self.manifest = copy_text(&other.manifest);
        }
    }
}

/// What the environment says of the agent: the value of each variable that is
/// set.
#[derive(Debug, Clone, PartialEq, Eq)]
pub struct AgentEnvironment {
    /// `CARAVEL_AGENT_PORT`
    pub port: Option<String>,
    /// `CARAVEL_AGENT_ADDRESS`
    pub address: Option<String>,
    /// `CARAVEL_AGENT_DISABLE_LISTEN`
    pub disable_listen: Option<String>,
    /// `CARAVEL_AGENT_INTERVAL`
    pub interval: Option<String>,
    /// `CARAVEL_AGENT_SPLAY`
    pub splay: Option<String>,
    /// `CARAVEL_AGENT_MANIFEST`
    pub manifest: Option<String>,
}

/// A variable of the environment that should hold a number and does not.
#[derive(Debug, Clone, Copy, PartialEq, Eq, Structural)]
pub enum ConfigError {
    InvalidPort,
    InvalidInterval,
    InvalidSplay,
}

/// The flag that a variable gives: `true` or `1`, `false` or `0`. Any other
/// value gives nothing.
pub open spec fn flag_of(value: Option<String>) -> Option<bool> {
    match value {
        Some(text) => if text@ == "true"@ || text@ == "1"@ {
            Some(true)
        } else if text@ == "false"@ || text@ == "0"@ {
            Some(false)
        } else {
            None
        },
        None => None,
    }
}

/// The number that a variable gives. A variable that is set and spells no
/// number is an error.
pub open spec fn number_of(value: Option<String>) -> Result<Option<u64>, ()> {
    match value {
        Some(text) => match decimal_u64(text@) {
            Some(n) => Ok(Some(n)),
            None => Err(()),
        },
        None => Ok(None),
    }
}

/// The settings that the environment gives.
pub open spec fn environment_settings(env: AgentEnvironment) -> Result<AgentSettings, ConfigError> {
    match number_of(env.port) {
        Err(_) => Err(ConfigError::InvalidPort),
        Ok(listen_port) => match number_of(env.interval) {
            Err(_) => Err(ConfigError::InvalidInterval),
            Ok(interval) => match number_of(env.splay) {
                Err(_) => Err(ConfigError::InvalidSplay),
                Ok(splay) => Ok(
                    AgentSettings {
                        listen_port,
                        listen_address: text_of(env.address),
                        disable_listen: flag_of(env.disable_listen),
                        interval,
                        splay,
                        manifest: text_of(env.manifest),
                    },
                ),
            },
        },
    }
}

fn read_number(value: &Option<String>) -> (r: Result<Option<u64>, ()>)
    ensures
        r == number_of(*value),
{
    match value {
        Some(text) => match parse_u64(text.as_str()) {
            Some(n) => Ok(Some(n)),
            None => Err(()),
        },
        None => Ok(None),
    }
}

fn read_flag(value: &Option<String>) -> (r: Option<bool>)
    ensures
        r == flag_of(*value),
{
    match value {
        Some(text) => {
            if same_text(text.as_str(), "true") || same_text(text.as_str(), "1") {
                Some(true)
            } else if same_text(text.as_str(), "false") || same_text(text.as_str(), "0") {
                Some(false)
            } else {
                None
            }
        },
        None => None,
    }
}

impl AgentConfig {
    /// Overlays what the environment says on these settings. Where a variable
    /// that should hold a number does not, nothing is changed and the first
    /// such variable is reported: port, then interval, then splay.
    pub fn merge_environment(&mut self, env: &AgentEnvironment) -> (r: Result<(), ConfigError>)
        ensures
            match r {
                Ok(_) => environment_settings(*env) matches Ok(over) && final(self)@ == overlay(
                    old(self)@,
                    over,
                ),
                Err(e) => environment_settings(*env) == Err::<AgentSettings, ConfigError>(e)
                    && *final(self) == *old(self),
            },
    {
        let listen_port = match read_number(&env.port) {
            Ok(n) => n,
            Err(_) => {
                return Err(ConfigError::InvalidPort);
            },
        };
        let interval = match read_number(&env.interval) {
            Ok(n) => n,
            Err(_) => {
                return Err(ConfigError::InvalidInterval);
            },
        };
        let splay = match read_number(&env.splay) {
            Ok(n) => n,
            Err(_) => {
                return Err(ConfigError::InvalidSplay);
            },
        };
        let over = AgentConfig {
            listen_port,
            listen_address: copy_text(&env.address),
            disable_listen: read_flag(&env.disable_listen),
            interval,
            splay,
            manifest: copy_text(&env.manifest),
        };
        self.merge_with(&over);
        Ok(())
    }
}

/// Overlaying settings in which nothing is given changes nothing.
pub proof fn overlay_nothing(base: AgentSettings, over: AgentSettings)
    requires
        over.listen_port is None,
        over.listen_address is None,
        over.disable_listen is None,
        over.interval is None,
        over.splay is None,
        over.manifest is None,
    ensures
        overlay(base, over) == base,
{
}

/// Overlaying is associative: layers may be combined in any grouping.
pub proof fn overlay_associative(a: AgentSettings, b: AgentSettings, c: AgentSettings)
    ensures
        overlay(overlay(a, b), c) == overlay(a, overlay(b, c)),
{
}

} // verus!
