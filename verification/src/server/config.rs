//! The settings of the health-check server and the rules that they obey.

use crate::server::types::ServerConfig;
use crate::text::{trim, trim_spec};
use crate::time::Duration;
use vstd::prelude::*;
use vstd::string::{StrSliceExecFns, StringExecFns};

verus! {

/// The rule that a setting breaks.
#[derive(Debug, Clone, Copy, PartialEq, Eq, Structural)]
pub enum ValidationError {
    /// A text is shorter than allowed.
    Length,
    /// A number is outside its range.
    Range,
    /// The socket path is empty or white space.
    SocketPathEmpty,
    /// The socket path starts neither with `/` nor with `./`.
    SocketPathInvalidFormat,
    /// The batch delay is outside 1 ms to 10 s.
    BatchDelayOutOfRange,
    /// The monitor interval is outside 10 ms to 60 s.
    MonitorIntervalOutOfRange,
}

impl ValidationError {
    /// The code of the rule.
    pub open spec fn code_spec(self) -> Seq<char> {
        match self {
            ValidationError::Length => "length"@,
            ValidationError::Range => "range"@,
            ValidationError::SocketPathEmpty => "socket_path_empty"@,
            ValidationError::SocketPathInvalidFormat => "socket_path_invalid_format"@,
            ValidationError::BatchDelayOutOfRange => "batch_delay_out_of_range"@,
            ValidationError::MonitorIntervalOutOfRange => "monitor_interval_out_of_range"@,
        }
    }

    /// The code of the rule, as text.
    pub fn code(&self) -> (c: &'static str)
        ensures
            c@ == self.code_spec(),
    {
        match self {
            ValidationError::Length => "length",
            ValidationError::Range => "range",
            ValidationError::SocketPathEmpty => "socket_path_empty",
            ValidationError::SocketPathInvalidFormat => "socket_path_invalid_format",
            ValidationError::BatchDelayOutOfRange => "batch_delay_out_of_range",
            ValidationError::MonitorIntervalOutOfRange => "monitor_interval_out_of_range",
        }
    }
}

/// The setting that is invalid.
#[derive(Debug, Clone, Copy, PartialEq, Eq, Structural)]
pub enum Field {
    ProxySocket,
    BatchingDelay,
    BatchingMaxSize,
    ChannelNotification,
    ChannelConfigUpdate,
    ChannelProxyMessage,
    ManagerMonitorInterval,
}

/// A setting and the rule that it breaks.
#[derive(Debug, Clone, Copy, PartialEq, Eq, Structural)]
pub struct FieldError {
    /// The setting.
    pub field: Field,
    /// The rule.
    pub error: ValidationError,
}

/// Why the configuration could not be had.
#[derive(Debug, Clone, PartialEq, Eq)]
pub enum ConfigError {
    /// No configuration file in the search paths.
    FileNotFound,
    /// The file could not be read; with the text of the error.
    IoError(String),
    /// The file is not valid YAML for the settings; with the text of the error.
    ParseError(String),
    /// A setting breaks a rule.
    ValidationError(FieldError),
}

/// What a trimmed socket path is found to be: it must not be empty and must
/// be absolute or start with `./`.
pub open spec fn trimmed_path_verdict(trimmed: Seq<char>) -> Result<(), ValidationError> {
    if trimmed.len() == 0 {
        Err(ValidationError::SocketPathEmpty)
    } else if trimmed[0] == '/' || (trimmed.len() >= 2 && trimmed[0] == '.' && trimmed[1] == '/') {
        Ok(())
    } else {
        Err(ValidationError::SocketPathInvalidFormat)
    }
}

/// Checks a socket path that has been trimmed already.
pub fn check_trimmed_socket_path(trimmed: &str) -> (r: Result<(), ValidationError>)
    ensures
        r == trimmed_path_verdict(trimmed@),
{
    let n: usize = trimmed.unicode_len();
    if n == 0 {
        return Err(ValidationError::SocketPathEmpty);
    }
    let first: char = trimmed.get_char(0);
    if first == '/' {
        return Ok(());
    }
    if n >= 2 && first == '.' {
        let second: char = trimmed.get_char(1);
        if second == '/' {
            return Ok(());
        }
    }
    Err(ValidationError::SocketPathInvalidFormat)
}

/// Checks a socket path: without the white space around it, it must not be
/// empty and must be absolute or start with `./`.
pub fn validate_socket_path(path: &str) -> (r: Result<(), ValidationError>)
    ensures
        r == trimmed_path_verdict(trim_spec(path@)),
{
    check_trimmed_socket_path(trim(path))
}

/// Whether a batch delay is allowed: 1 ms to 10 s, in whole milliseconds.
pub open spec fn batch_delay_ok(delay: Duration) -> bool {
    1 <= delay.millis() <= 10_000
}

/// Checks a batch delay.
pub fn validate_batch_delay(delay: &Duration) -> (r: Result<(), ValidationError>)
    ensures
        r == if batch_delay_ok(*delay) {
            Ok::<(), ValidationError>(())
        } else {
            Err::<(), ValidationError>(ValidationError::BatchDelayOutOfRange)
        },
{
    let millis: u128 = delay.as_millis();
    if millis < 1 || millis > 10_000 {
        return Err(ValidationError::BatchDelayOutOfRange);
    }
    Ok(())
}

/// Whether a monitor interval is allowed: 10 ms to 60 s, in whole
/// milliseconds.
pub open spec fn monitor_interval_ok(interval: Duration) -> bool {
    10 <= interval.millis() <= 60_000
}

/// Checks a monitor interval.
pub fn validate_monitor_interval(interval: &Duration) -> (r: Result<(), ValidationError>)
    ensures
        r == if monitor_interval_ok(*interval) {
            Ok::<(), ValidationError>(())
        } else {
            Err::<(), ValidationError>(ValidationError::MonitorIntervalOutOfRange)
        },
{
    let millis: u128 = interval.as_millis();
    if millis < 10 || millis > 60_000 {
        return Err(ValidationError::MonitorIntervalOutOfRange);
    }
    Ok(())
}

/// Settings of the server itself.
#[derive(Debug, Clone)]
pub struct ServerSettings {
    /// Path of the socket of the control agent.
    pub proxy_socket: String,
}

/// Settings of the batching of notifications.
#[derive(Debug, Clone, Copy, PartialEq, Eq, Structural)]
pub struct BatchingSettings {
    /// Longest time that a notification waits for its batch.
    pub delay: Duration,
    /// Largest number of notifications in one batch.
    pub max_size: usize,
}

/// Capacities of the queues.
#[derive(Debug, Clone, Copy, PartialEq, Eq, Structural)]
pub struct ChannelSettings {
    /// Queue of notifications.
    pub notification: usize,
    /// Queue of configuration updates.
    pub config_update: usize,
    /// Queue of messages from the control agent.
    pub proxy_message: usize,
}

/// Settings of the manager.
#[derive(Debug, Clone, Copy, PartialEq, Eq, Structural)]
pub struct ManagerSettings {
    /// Time between two polls of the monitors.
    pub monitor_interval: Duration,
}

/// Settings that are kept for later use.
#[derive(Debug, Clone, Copy, PartialEq, Eq, Structural)]
pub struct AdvancedSettings {
    pub max_failures: usize,
    pub notify_interval: Duration,
    pub fetch_interval: Duration,
    pub retry_delay: Duration,
}

/// Settings of the log.
#[derive(Debug, Clone)]
pub struct LoggingSettings {
    pub level: Option<String>,
    pub format: Option<String>,
}

impl Default for ServerSettings {
    fn default() -> (s: Self)
        ensures
            s.proxy_socket@ == "/var/run/seesaw/healthcheck-proxy.sock"@,
    {
        ServerSettings { proxy_socket: "/var/run/seesaw/healthcheck-proxy.sock".to_owned() }
    }
}

impl Default for BatchingSettings {
    fn default() -> (s: Self)
        ensures
            s == (BatchingSettings { delay: Duration::of_millis(100), max_size: 100 }),
    {
        BatchingSettings { delay: Duration::from_millis(100), max_size: 100 }
    }
}

impl Default for ChannelSettings {
    fn default() -> (s: Self)
        ensures
            s == (ChannelSettings { notification: 1000, config_update: 10, proxy_message: 10 }),
    {
        ChannelSettings { notification: 1000, config_update: 10, proxy_message: 10 }
    }
}

impl Default for ManagerSettings {
    fn default() -> (s: Self)
        ensures
            s == (ManagerSettings { monitor_interval: Duration::of_millis(500) }),
    {
        ManagerSettings { monitor_interval: Duration::from_millis(500) }
    }
}

impl Default for AdvancedSettings {
    fn default() -> (s: Self)
        ensures
            s == (AdvancedSettings {
                max_failures: 10,
                notify_interval: Duration::of_millis(15000),
                fetch_interval: Duration::of_millis(15000),
                retry_delay: Duration::of_millis(2000),
            }),
    {
        AdvancedSettings {
            max_failures: 10,
            notify_interval: Duration::from_secs(15),
            fetch_interval: Duration::from_secs(15),
            retry_delay: Duration::from_secs(2),
        }
    }
}

impl Default for LoggingSettings {
    fn default() -> (s: Self)
        ensures
            s.level is None,
            s.format is None,
    {
        LoggingSettings { level: None, format: None }
    }
}

impl ServerSettings {
    /// The first rule that the settings break, if any: the socket path has
    /// at least one character, and is a valid socket path.
    pub open spec fn verdict(&self) -> Result<(), FieldError> {
        if self.proxy_socket@.len() < 1 {
            Err(FieldError { field: Field::ProxySocket, error: ValidationError::Length })
        } else {
            match trimmed_path_verdict(trim_spec(self.proxy_socket@)) {
                Ok(()) => Ok(()),
                Err(error) => Err(FieldError { field: Field::ProxySocket, error }),
            }
        }
    }

    /// Checks the settings.
    pub fn validate(&self) -> (r: Result<(), FieldError>)
        ensures
            r == self.verdict(),
    {
        if self.proxy_socket.as_str().unicode_len() < 1 {
            return Err(FieldError { field: Field::ProxySocket, error: ValidationError::Length });
        }
        match validate_socket_path(self.proxy_socket.as_str()) {
            Ok(()) => Ok(()),
            Err(error) => Err(FieldError { field: Field::ProxySocket, error }),
        }
    }
}

impl BatchingSettings {
    /// The first rule that the settings break, if any: the delay is 1 ms to
    /// 10 s, the size is 1 to 10000.
    pub open spec fn verdict(&self) -> Result<(), FieldError> {
        if !batch_delay_ok(self.delay) {
            Err(
                FieldError {
                    field: Field::BatchingDelay,
                    error: ValidationError::BatchDelayOutOfRange,
                },
            )
        } else if !(1 <= self.max_size <= 10_000) {
            Err(FieldError { field: Field::BatchingMaxSize, error: ValidationError::Range })
        } else {
            Ok(())
        }
    }

    /// Checks the settings.
    pub fn validate(&self) -> (r: Result<(), FieldError>)
        ensures
            r == self.verdict(),
    {
        match validate_batch_delay(&self.delay) {
            Ok(()) => {},
            Err(error) => {
                return Err(FieldError { field: Field::BatchingDelay, error });
            },
        }
        if self.max_size < 1 || self.max_size > 10_000 {
            return Err(FieldError { field: Field::BatchingMaxSize, error: ValidationError::Range });
        }
        Ok(())
    }
}

impl ChannelSettings {
    /// The first rule that the settings break, if any: the notification
    /// queue holds 10 to 100000, the other two 1 to 1000.
    pub open spec fn verdict(&self) -> Result<(), FieldError> {
        if !(10 <= self.notification <= 100_000) {
            Err(FieldError { field: Field::ChannelNotification, error: ValidationError::Range })
        } else if !(1 <= self.config_update <= 1000) {
            Err(FieldError { field: Field::ChannelConfigUpdate, error: ValidationError::Range })
        } else if !(1 <= self.proxy_message <= 1000) {
            Err(FieldError { field: Field::ChannelProxyMessage, error: ValidationError::Range })
        } else {
            Ok(())
        }
    }

    /// Checks the settings.
    pub fn validate(&self) -> (r: Result<(), FieldError>)
        ensures
            r == self.verdict(),
    {
        if self.notification < 10 || self.notification > 100_000 {
            return Err(
                FieldError { field: Field::ChannelNotification, error: ValidationError::Range },
            );
        }
        if self.config_update < 1 || self.config_update > 1000 {
            return Err(
                FieldError { field: Field::ChannelConfigUpdate, error: ValidationError::Range },
            );
        }
        if self.proxy_message < 1 || self.proxy_message > 1000 {
            return Err(
                FieldError { field: Field::ChannelProxyMessage, error: ValidationError::Range },
            );
        }
        Ok(())
    }
}

impl ManagerSettings {
    /// The rule that the settings break, if any: the monitor interval is
    /// 10 ms to 60 s.
    pub open spec fn verdict(&self) -> Result<(), FieldError> {
        if !monitor_interval_ok(self.monitor_interval) {
            Err(
                FieldError {
                    field: Field::ManagerMonitorInterval,
                    error: ValidationError::MonitorIntervalOutOfRange,
                },
            )
        } else {
            Ok(())
        }
    }

    /// Checks the settings.
    pub fn validate(&self) -> (r: Result<(), FieldError>)
        ensures
            r == self.verdict(),
    {
        match validate_monitor_interval(&self.monitor_interval) {
            Ok(()) => Ok(()),
            Err(error) => Err(FieldError { field: Field::ManagerMonitorInterval, error }),
        }
    }
}

/// The settings of the health-check server.
#[derive(Debug, Clone)]
pub struct Config {
    pub server: ServerSettings,
    pub batching: BatchingSettings,
    pub channels: ChannelSettings,
    pub manager: ManagerSettings,
    pub advanced: AdvancedSettings,
    pub logging: LoggingSettings,
}

impl Default for Config {
    fn default() -> (c: Self)
        ensures
            c.server.proxy_socket@ == "/var/run/seesaw/healthcheck-proxy.sock"@,
            c.batching == (BatchingSettings { delay: Duration::of_millis(100), max_size: 100 }),
            c.channels == (ChannelSettings {
                notification: 1000,
                config_update: 10,
                proxy_message: 10,
            }),
            c.manager == (ManagerSettings { monitor_interval: Duration::of_millis(500) }),
            c.advanced == (AdvancedSettings {
                max_failures: 10,
                notify_interval: Duration::of_millis(15000),
                fetch_interval: Duration::of_millis(15000),
                retry_delay: Duration::of_millis(2000),
            }),
            c.logging.level is None,
            c.logging.format is None,
    {
        Config {
            server: ServerSettings::default(),
            batching: BatchingSettings::default(),
            channels: ChannelSettings::default(),
            manager: ManagerSettings::default(),
            advanced: AdvancedSettings::default(),
            logging: LoggingSettings::default(),
        }
    }
}

impl Config {
    /// The first rule that the settings break, if any, section by section:
    /// server, batching, channels, manager.
    pub open spec fn verdict(&self) -> Result<(), FieldError> {
        if self.server.verdict() is Err {
            self.server.verdict()
        } else if self.batching.verdict() is Err {
            self.batching.verdict()
        } else if self.channels.verdict() is Err {
            self.channels.verdict()
        } else {
            self.manager.verdict()
        }
    }

    /// Checks the settings.
    pub fn validate(&self) -> (r: Result<(), ConfigError>)
        ensures
            match self.verdict() {
                Ok(()) => r is Ok,
                Err(e) => r == Err::<(), ConfigError>(ConfigError::ValidationError(e)),
            },
    {
        match self.server.validate() {
            Ok(()) => {},
            Err(e) => {
                return Err(ConfigError::ValidationError(e));
            },
        }
        match self.batching.validate() {
            Ok(()) => {},
            Err(e) => {
                return Err(ConfigError::ValidationError(e));
            },
        }
        match self.channels.validate() {
            Ok(()) => {},
            Err(e) => {
                return Err(ConfigError::ValidationError(e));
            },
        }
        match self.manager.validate() {
            Ok(()) => Ok(()),
            Err(e) => Err(ConfigError::ValidationError(e)),
        }
    }

    /// The configuration of the server that these settings describe.
    pub fn to_server_config(&self) -> (c: ServerConfig)
        ensures
            c.batch_delay == self.batching.delay,
            c.batch_size == self.batching.max_size,
            c.channel_size == self.channels.notification,
            c.max_failures == self.advanced.max_failures,
            c.notify_interval == self.advanced.notify_interval,
            c.fetch_interval == self.advanced.fetch_interval,
            c.retry_delay == self.advanced.retry_delay,
            c.proxy_socket@ == self.server.proxy_socket@,
            c.config_channel_size == self.channels.config_update,
            c.proxy_channel_size == self.channels.proxy_message,
            c.manager_monitor_interval == self.manager.monitor_interval,
    {
        ServerConfig {
            batch_delay: self.batching.delay,
            batch_size: self.batching.max_size,
            channel_size: self.channels.notification,
            max_failures: self.advanced.max_failures,
            notify_interval: self.advanced.notify_interval,
            fetch_interval: self.advanced.fetch_interval,
            retry_delay: self.advanced.retry_delay,
            proxy_socket: self.server.proxy_socket.clone(),
            config_channel_size: self.channels.config_update,
            proxy_channel_size: self.channels.proxy_message,
            manager_monitor_interval: self.manager.monitor_interval,
        }
    }
}

/// The places where the configuration file is looked for, in order: the
/// system directory, the directory of the user if there is a home, the
/// working directory.
pub open spec fn search_paths_spec(home: Option<Seq<char>>) -> Seq<Seq<char>> {
    match home {
        Some(h) => seq![
            "/etc/seesaw/healthcheck-server.yaml"@,
            h + "/.config/seesaw/healthcheck-server.yaml"@,
            "./healthcheck-server.yaml"@,
        ],
        None => seq!["/etc/seesaw/healthcheck-server.yaml"@, "./healthcheck-server.yaml"@],
    }
}

/// The places where the configuration file is looked for, in order.
pub fn search_paths(home: Option<String>) -> (paths: Vec<String>)
    ensures
        paths.deep_view() == search_paths_spec(
            match home {
                Some(h) => Some(h@),
                None => None,
            },
        ),
{
    let mut paths: Vec<String> = Vec::new();
    paths.push("/etc/seesaw/healthcheck-server.yaml".to_owned());
    match home {
        Some(h) => {
            let mut user: String = h;
            user.append("/.config/seesaw/healthcheck-server.yaml");
            paths.push(user);
        },
        None => {},
    }
    paths.push("./healthcheck-server.yaml".to_owned());
    assert(paths.deep_view() =~= search_paths_spec(
        match home {
            Some(h) => Some(h@),
            None => None,
        },
    ));
    paths
}

/// Which of the places is read: the first at which a file was found. With
/// no file anywhere the defaults apply.
pub fn first_existing(found: &Vec<bool>) -> (index: Option<usize>)
    ensures
        match index {
            Some(i) => i < found@.len() && found@[i as int] && forall|j: int|
                0 <= j < i ==> !found@[j],
            None => forall|j: int| 0 <= j < found@.len() ==> !found@[j],
        },
{
    let mut i: usize = 0;
    while i < found.len()
        invariant
            i <= found@.len(),
            forall|j: int| 0 <= j < i ==> !found@[j],
        decreases found@.len() - i,
    {
        if found[i] {
            return Some(i);
        }
        i += 1;
    }
    None
}

} // verus!
