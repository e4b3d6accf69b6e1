//! Agent configuration: intervals, buffer sizes, and the server address.
//!
//! The structure is read-mostly and externally owned: the surrounding
//! runtime reads the configuration file and the environment and hands the
//! plain values in; a server-pushed override replaces individual fields,
//! never the whole structure. Precedence at load time: a configuration
//! file wins outright; otherwise the defaults apply, patched by the
//! environment.

use vstd::prelude::*;
use vstd::string::StringExecFns;

use crate::text::parse_bool;
use crate::text::parse_u64;
use crate::text::spec_parse_bool;
use crate::text::spec_parse_u64;

verus! {

/// Monitoring schedule: on which days and between which times the agent
/// monitors.
#[derive(Clone, Debug)]
pub struct ScheduleConfig {
    /// Whether the schedule is enforced.
    pub enabled: bool,
    /// Days of the week, Sunday as zero.
    pub days: Vec<u8>,
    /// Daily start, as `HH:MM`.
    pub start_time: String,
    /// Daily end, as `HH:MM`.
    pub end_time: String,
    /// The schedule's time zone name.
    pub timezone: String,
}

/// Field overrides pushed by the server after authentication.
#[derive(Clone, Debug)]
pub struct ServerConfig {
    pub screenshot_interval: Option<u64>,
    pub activity_log_interval: Option<u64>,
    pub keystroke_buffer_size: Option<usize>,
}

/// Raw environment overrides, exactly as read from the process
/// environment; unparsable values fall back field by field.
#[derive(Clone, Debug)]
pub struct EnvOverrides {
    pub server_url: Option<String>,
    pub auto_start: Option<String>,
    pub screenshot_interval: Option<String>,
    pub admin_password_hash: Option<String>,
}

/// Why a configuration could not be read or written.
#[derive(Debug)]
pub enum ConfigError {
    /// Reading or writing the file failed.
    Io(String),
    /// The file's contents could not be parsed.
    Parse(String),
}

impl ConfigError {
    /// The error rendered as text.
    pub fn message(&self) -> (r: String)
        ensures
            match self {
                ConfigError::Io(m) => r@ == "IO error: "@ + m@,
                ConfigError::Parse(m) => r@ == "Parse error: "@ + m@,
            },
    {
        match self {
            ConfigError::Io(m) => {
                let mut s = "IO error: ".to_owned();
                s.append(m.as_str());
                s
            },
            ConfigError::Parse(m) => {
                let mut s = "Parse error: ".to_owned();
                s.append(m.as_str());
                s
            },
        }
    }
}

/// Whether to start on boot, by default.
pub fn default_true() -> (r: bool)
    ensures
        r,
{
    true
}

/// Milliseconds between screenshots, by default.
pub fn default_screenshot_interval() -> (r: u64)
    ensures
        r == 5000,
{
    5000
}

/// Milliseconds between activity-log flushes, by default.
pub fn default_activity_log_interval() -> (r: u64)
    ensures
        r == 10000,
{
    10000
}

/// Keystrokes buffered before a flush, by default.
pub fn default_keystroke_buffer_size() -> (r: usize)
    ensures
        r == 100,
{
    100
}

/// Milliseconds between heartbeats, by default.
pub fn default_heartbeat_interval() -> (r: u64)
    ensures
        r == 10000,
{
    10000
}

/// Milliseconds between process snapshots, by default.
pub fn default_process_interval() -> (r: u64)
    ensures
        r == 10000,
{
    10000
}

/// Milliseconds between clipboard checks, by default.
pub fn default_clipboard_interval() -> (r: u64)
    ensures
        r == 2000,
{
    2000
}

/// The agent configuration.
#[derive(Clone, Debug)]
pub struct Config {
    /// Server address for the socket connection.
    pub server_url: String,
    /// Start on system boot.
    pub auto_start: bool,
    /// Milliseconds between screenshots.
    pub screenshot_interval: u64,
    /// Milliseconds between activity-log flushes.
    pub activity_log_interval: u64,
    /// Keystrokes buffered before a flush.
    pub keystroke_buffer_size: usize,
    /// Milliseconds between heartbeats.
    pub heartbeat_interval: u64,
    /// Milliseconds between process snapshots.
    pub process_interval: u64,
    /// Milliseconds between clipboard checks.
    pub clipboard_interval: u64,
    /// Hash of the administration password, when one is set.
    pub admin_password_hash: Option<String>,
    /// Optional monitoring schedule.
    pub schedule: Option<ScheduleConfig>,
}

/// What the default configuration holds.
pub open spec fn spec_default_config(c: Config) -> bool {
    &&& c.server_url@ == Seq::<char>::empty()
    &&& c.auto_start
    &&& c.screenshot_interval == 5000
    &&& c.activity_log_interval == 10000
    &&& c.keystroke_buffer_size == 100
    &&& c.heartbeat_interval == 10000
    &&& c.process_interval == 10000
    &&& c.clipboard_interval == 2000
    &&& c.admin_password_hash is None
    &&& c.schedule is None
}

impl Default for Config {
    /// The built-in defaults: empty server address, auto-start on, the
    /// default intervals, no password, no schedule.
    fn default() -> (r: Config)
        ensures
            spec_default_config(r),
    {
        Config {
            server_url: String::new(),
            auto_start: default_true(),
            screenshot_interval: default_screenshot_interval(),
            activity_log_interval: default_activity_log_interval(),
            keystroke_buffer_size: default_keystroke_buffer_size(),
            heartbeat_interval: default_heartbeat_interval(),
            process_interval: default_process_interval(),
            clipboard_interval: default_clipboard_interval(),
            admin_password_hash: None,
            schedule: None,
        }
    }
}

impl Config {
    /// Patches this configuration from the environment, field by field: a
    /// present address or password hash replaces the field; a present
    /// auto-start flag is parsed as a boolean, an unparsable one means on;
    /// a present screenshot interval is parsed and ignored when
    /// unparsable.
    pub fn apply_env(&mut self, env: &EnvOverrides)
        ensures
            final(self).server_url == (match env.server_url {
                Some(u) => u,
                None => old(self).server_url,
            }),
            final(self).auto_start == (match env.auto_start {
                Some(v) => (match spec_parse_bool(v@) {
                    Some(b) => b,
                    None => true,
                }),
                None => old(self).auto_start,
            }),
            final(self).screenshot_interval == (match env.screenshot_interval {
                Some(v) => (match spec_parse_u64(v@) {
                    Some(n) => n,
                    None => old(self).screenshot_interval,
                }),
                None => old(self).screenshot_interval,
            }),
            final(self).admin_password_hash == (match env.admin_password_hash {
                Some(h) => Some(h),
                None => old(self).admin_password_hash,
            }),
            final(self).activity_log_interval == old(self).activity_log_interval,
            final(self).keystroke_buffer_size == old(self).keystroke_buffer_size,
            final(self).heartbeat_interval == old(self).heartbeat_interval,
            final(self).process_interval == old(self).process_interval,
            final(self).clipboard_interval == old(self).clipboard_interval,
            final(self).schedule == old(self).schedule,
    {
        match &env.server_url {
            Some(u) => {
                self.server_url = u.clone();
            },
            None => {},
        }
        match &env.auto_start {
            Some(v) => {
                self.auto_start = match parse_bool(v.as_str()) {
                    Some(b) => b,
                    None => true,
                };
            },
            None => {},
        }
        match &env.screenshot_interval {
            Some(v) => {
                match parse_u64(v.as_str()) {
                    Some(n) => {
                        self.screenshot_interval = n;
                    },
                    None => {},
                }
            },
            None => {},
        }
        match &env.admin_password_hash {
            Some(h) => {
                self.admin_password_hash = Some(h.clone());
            },
            None => {},
        }
    }

    /// Loads the configuration: a parsed configuration file wins outright;
    /// without one the defaults apply, patched by the environment. Loading
    /// never fails — a missing or unreadable file simply falls back.
    pub fn load(file: Option<Config>, env: &EnvOverrides) -> (r: Result<Config, ConfigError>)
        ensures
            r is Ok,
            match file {
                Some(c) => r == Ok::<Config, ConfigError>(c),
                None => (r matches Ok(c) && {
                    &&& (match env.server_url {
                        Some(u) => c.server_url == u,
                        None => c.server_url@ == Seq::<char>::empty(),
                    })
                    &&& c.auto_start == (match env.auto_start {
                        Some(v) => (match spec_parse_bool(v@) {
                            Some(b) => b,
                            None => true,
                        }),
                        None => true,
                    })
                    &&& c.screenshot_interval == (match env.screenshot_interval {
                        Some(v) => (match spec_parse_u64(v@) {
                            Some(n) => n,
                            None => 5000,
                        }),
                        None => 5000,
                    })
                    &&& (c.admin_password_hash == (match env.admin_password_hash {
                        Some(h) => Some(h),
                        None => None::<String>,
                    }))
                    &&& c.activity_log_interval == 10000
                    &&& c.keystroke_buffer_size == 100
                    &&& c.heartbeat_interval == 10000
                    &&& c.process_interval == 10000
                    &&& c.clipboard_interval == 2000
                    &&& c.schedule is None
                }),
            },
    {
        if let Some(config) = file {
            return Ok(config);
        }
        let mut config = Config::default();
        config.apply_env(env);
        Ok(config)
    }

    /// Applies a server-pushed override: each present field replaces the
    /// matching interval or buffer size; absent fields change nothing.
    pub fn update_from_server(&mut self, server_config: &ServerConfig)
        ensures
            final(self).screenshot_interval == (match server_config.screenshot_interval {
                Some(v) => v,
                None => old(self).screenshot_interval,
            }),
            final(self).activity_log_interval == (match server_config.activity_log_interval {
                Some(v) => v,
                None => old(self).activity_log_interval,
            }),
            final(self).keystroke_buffer_size == (match server_config.keystroke_buffer_size {
                Some(v) => v,
                None => old(self).keystroke_buffer_size,
            }),
            final(self).server_url == old(self).server_url,
            final(self).auto_start == old(self).auto_start,
            final(self).heartbeat_interval == old(self).heartbeat_interval,
            final(self).process_interval == old(self).process_interval,
            final(self).clipboard_interval == old(self).clipboard_interval,
            final(self).admin_password_hash == old(self).admin_password_hash,
            final(self).schedule == old(self).schedule,
    {
        if let Some(interval) = server_config.screenshot_interval {
            self.screenshot_interval = interval;
        }
        if let Some(interval) = server_config.activity_log_interval {
            self.activity_log_interval = interval;
        }
        if let Some(size) = server_config.keystroke_buffer_size {
            self.keystroke_buffer_size = size;
        }
    }
}

} // verus!
