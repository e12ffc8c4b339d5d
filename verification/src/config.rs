//! Agent configuration file contents and their defaults.
use vstd::prelude::*;

use crate::models::{current_os_type, is_default_agent_config, AgentConfig, AgentId, OsType};
use crate::stamp::{has_v4_bits, new_uuid};
use crate::text::{chars_equal, chars_of, owned};

verus! {

/// The whole configuration file: agent settings, logging and TLS.
#[derive(Clone, Debug)]
pub struct Config {
    pub agent: AgentConfig,
    pub logging: LoggingConfig,
    pub tls: TlsConfig,
}

/// Logging settings.
#[derive(Clone, Debug)]
pub struct LoggingConfig {
    pub level: String,
    pub file: Option<String>,
    pub max_size_mb: u32,
    pub max_backups: u32,
}

/// TLS settings for the server connection.
#[derive(Clone, Debug)]
pub struct TlsConfig {
    pub enabled: bool,
    pub ca_cert: Option<String>,
    pub client_cert: Option<String>,
    pub client_key: Option<String>,
    pub verify_server: bool,
}

/// The default log file on each operating system.
pub open spec fn default_log_file(os: OsType) -> Seq<char> {
    if os == OsType::Windows {
        "C:\\ProgramData\\IceNet\\logs\\agent.log"@
    } else {
        "/var/log/icenet-agent.log"@
    }
}

/// `c` holds the default logging settings of an `os` host.
pub open spec fn is_default_logging(c: LoggingConfig, os: OsType) -> bool {
    &&& c.level@ == "info"@
    &&& c.file matches Some(f) && f@ == default_log_file(os)
    &&& c.max_size_mb == 100
    &&& c.max_backups == 5
}

/// `c` holds the default TLS settings.
pub open spec fn is_default_tls(c: TlsConfig) -> bool {
    &&& c.enabled
    &&& c.ca_cert is None
    &&& c.client_cert is None
    &&& c.client_key is None
    &&& c.verify_server
}

impl LoggingConfig {
    /// Level `info`, 100 MB, 5 backups, and the log file of an `os` host.
    pub fn default_for(os: OsType) -> (r: LoggingConfig)
        ensures
            is_default_logging(r, os),
    {
        let file = if os == OsType::Windows {
            owned("C:\\ProgramData\\IceNet\\logs\\agent.log")
        } else {
            owned("/var/log/icenet-agent.log")
        };
        LoggingConfig { level: owned("info"), file: Some(file), max_size_mb: 100, max_backups: 5 }
    }
}

impl Default for LoggingConfig {
    /// The default logging settings of this host.
    fn default() -> (r: Self)
        ensures
            exists|os: OsType| is_default_logging(r, os),
    {
        LoggingConfig::default_for(current_os_type())
    }
}

impl Default for TlsConfig {
    /// TLS on, no certificates, server verification on.
    fn default() -> (r: Self)
        ensures
            is_default_tls(r),
    {
        TlsConfig {
            enabled: true,
            ca_cert: None,
            client_cert: None,
            client_key: None,
            verify_server: true,
        }
    }
}

/// `c` holds the default settings of an `os` host.
pub open spec fn is_default_config(c: Config, os: OsType) -> bool {
    &&& is_default_agent_config(c.agent, os == OsType::Windows)
    &&& is_default_logging(c.logging, os)
    &&& is_default_tls(c.tls)
}

impl Config {
    /// The default configuration of an agent with id `agent_id` on an `os`
    /// host.
    pub fn default_for(agent_id: AgentId, os: OsType) -> (r: Config)
        ensures
            r.agent.agent_id == agent_id,
            is_default_config(r, os),
    {
        Config {
            agent: AgentConfig::default_for(agent_id, os),
            logging: LoggingConfig::default_for(os),
            tls: TlsConfig::default(),
        }
    }

    /// The default configuration of an `os` host with a fresh random agent
    /// id; `None` where no random id could be had.
    pub fn try_default_for(os: OsType) -> (r: Option<Config>)
        ensures
            r matches Some(c) ==> {
                &&& has_v4_bits(c.agent.agent_id)
                &&& is_default_config(c, os)
            },
    {
        match new_uuid() {
            Some(id) => Some(Config::default_for(id, os)),
            None => None,
        }
    }

    /// The default configuration of this host with a fresh random agent id;
    /// `None` where no random id could be had.
    pub fn try_default() -> (r: Option<Config>)
        ensures
            r matches Some(c) ==> {
                &&& has_v4_bits(c.agent.agent_id)
                &&& exists|os: OsType| is_default_config(c, os)
            },
    {
        Config::try_default_for(current_os_type())
    }
}

/// The text format of a configuration file.
#[derive(Clone, Copy, Debug, PartialEq, Eq, Structural)]
pub enum ConfigFormat {
    Json,
    Yaml,
}

/// A file whose extension is `json` holds JSON; any other file holds YAML.
pub open spec fn format_for_extension(extension: Option<Seq<char>>) -> ConfigFormat {
    if extension == Some("json"@) {
        ConfigFormat::Json
    } else {
        ConfigFormat::Yaml
    }
}

impl ConfigFormat {
    /// The format in which a configuration file with this extension (as
    /// `Path::extension` finds it) is read and written.
    pub fn for_extension(extension: Option<&str>) -> (r: ConfigFormat)
        ensures
            r == format_for_extension(
                match extension {
                    Some(e) => Some(e@),
                    None => None,
                },
            ),
    {
        match extension {
            Some(ext) => {
                let e = chars_of(ext);
                let json = chars_of("json");
                if chars_equal(&e, &json) {
                    ConfigFormat::Json
                } else {
                    ConfigFormat::Yaml
                }
            },
            None => ConfigFormat::Yaml,
        }
    }
}

} // verus!
