//! Configuration of the CLI and the daemon, with its defaults.

use vstd::prelude::*;
use vstd::string::*;
use crate::paths::{join, path_join};
use crate::xdg::{
    config_dir, data_dir, get_config_dir, get_data_dir, get_runtime_dir, get_state_dir, runtime_dir,
    state_dir, XdgEnv,
};

verus! {

/// Configuration of the CLI and the daemon.
#[derive(Debug, Clone)]
pub struct Config {
    /// File system paths.
    pub paths: PathConfig,
    /// Daemon lifecycle configuration.
    pub daemon: DaemonConfig,
    /// Process management configuration.
    pub process: ProcessConfig,
    /// Logging configuration.
    pub logging: LoggingConfig,
    /// API server configuration.
    pub api: ApiConfig,
}

/// File system paths.
#[derive(Debug, Clone)]
pub struct PathConfig {
    /// Base data directory.
    pub data_dir: String,
    /// Directory for log files.
    pub log_dir: String,
    /// PID file path for daemon process tracking.
    pub pid_file: String,
    /// Unix domain socket path for client-daemon communication.
    pub socket_path: String,
    /// Main daemon log file path.
    pub daemon_log_file: String,
}

/// Daemon lifecycle configuration.
#[derive(Debug, Clone, Copy)]
pub struct DaemonConfig {
    /// Maximum time to wait for daemon startup (milliseconds).
    pub startup_timeout_ms: u64,
    /// Grace period for processes to shut down during daemon shutdown
    /// (milliseconds).
    pub shutdown_grace_period_ms: u64,
    /// Interval for checking daemon stop status (milliseconds).
    pub stop_check_interval_ms: u64,
    /// Timeout for a client connecting to the daemon (seconds).
    pub client_connection_timeout_secs: u64,
    /// Longest wait after starting the daemon before connecting
    /// (milliseconds).
    pub client_startup_wait_ms: u64,
}

/// Logging configuration.
#[derive(Debug, Clone, Copy)]
pub struct LoggingConfig {
    /// Enable file logging.
    pub enable_file_logging: bool,
    /// Maximum size per log file in MB.
    pub max_size_mb: u64,
    /// Maximum number of log files to keep.
    pub max_files: u32,
    /// Size of the in-memory ring buffer for each process.
    pub ring_buffer_size: usize,
    /// Polling interval for log file following (milliseconds).
    pub follow_poll_interval_ms: u64,
}

/// API server configuration.
#[derive(Debug, Clone, Copy)]
pub struct ApiConfig {
    /// Unix socket file permissions.
    pub unix_socket_permissions: u32,
    /// Additional buffer time for gRPC requests beyond the wait timeout
    /// (seconds).
    pub grpc_request_buffer_secs: u64,
}

/// Process management configuration.
#[derive(Debug, Clone, Copy)]
pub struct ProcessConfig {
    /// Startup configuration.
    pub startup: ProcessStartupConfig,
    /// Restart configuration.
    pub restart: ProcessRestartConfig,
    /// Port detection configuration.
    pub port_detection: PortDetectionConfig,
    /// Log buffer size (number of lines).
    pub log_buffer_size: usize,
    /// Whether managed processes get process groups of their own, surviving
    /// the daemon.
    pub independent_process_groups: bool,
}

/// Startup configuration.
#[derive(Debug, Clone, Copy)]
pub struct ProcessStartupConfig {
    /// Default timeout for log pattern matching (seconds).
    pub default_wait_timeout_secs: u32,
    /// Delay before a health check when no log pattern is given
    /// (milliseconds).
    pub health_check_delay_ms: u64,
}

/// Restart configuration.
#[derive(Debug, Clone, Copy)]
pub struct ProcessRestartConfig {
    /// Maximum number of automatic restart attempts.
    pub max_attempts: u32,
    /// Delay between stop and start during a restart (milliseconds).
    pub delay_ms: u64,
    /// Timeout for graceful process shutdown (milliseconds).
    pub shutdown_timeout_ms: u64,
}

/// Port detection configuration.
#[derive(Debug, Clone, Copy)]
pub struct PortDetectionConfig {
    /// Initial delay before port detection starts (seconds).
    pub initial_delay_secs: u64,
    /// Interval between port detection attempts (seconds).
    pub interval_secs: u64,
    /// Maximum number of port detection attempts.
    pub max_attempts: u32,
}

/// The text of an optional string.
pub open spec fn opt_string(o: Option<String>) -> Option<Seq<char>> {
    match o {
        Some(s) => Some(s@),
        None => None,
    }
}

fn as_opt_str(o: &Option<String>) -> (r: Option<&str>)
    ensures
        match r {
            Some(s) => *o matches Some(t) && s@ == t@,
            None => o is None,
        },
{
    match o {
        Some(s) => Some(s.as_str()),
        None => None,
    }
}

impl Config {
    /// The default numbers of the configuration hold.
    pub open spec fn has_default_settings(&self) -> bool {
        &&& self.daemon.startup_timeout_ms == 2000
        &&& self.daemon.shutdown_grace_period_ms == 500
        &&& self.daemon.stop_check_interval_ms == 100
        &&& self.daemon.client_connection_timeout_secs == 5
        &&& self.daemon.client_startup_wait_ms == 1000
        &&& self.process.startup.default_wait_timeout_secs == 30
        &&& self.process.startup.health_check_delay_ms == 500
        &&& self.process.restart.max_attempts == 3
        &&& self.process.restart.delay_ms == 1000
        &&& self.process.restart.shutdown_timeout_ms == 5000
        &&& self.process.port_detection.initial_delay_secs == 3
        &&& self.process.port_detection.interval_secs == 3
        &&& self.process.port_detection.max_attempts == 30
        &&& self.process.log_buffer_size == 10000
        &&& !self.process.independent_process_groups
        &&& self.logging.enable_file_logging
        &&& self.logging.max_size_mb == 100
        &&& self.logging.max_files == 10
        &&& self.logging.ring_buffer_size == 10000
        &&& self.logging.follow_poll_interval_ms == 100
        &&& self.api.unix_socket_permissions == 0o600
        &&& self.api.grpc_request_buffer_secs == 5
    }

    /// The default configuration for the given data, state and runtime
    /// directories: logs in `<state>/log`, the daemon's PID file and socket
    /// in the runtime directory and its log file in the log directory.
    pub fn from_dirs(data: &str, state: &str, runtime: &str) -> (c: Self)
        ensures
            c.paths.data_dir@ == data@,
            c.paths.log_dir@ == path_join(state@, "log"@),
            c.paths.pid_file@ == path_join(runtime@, "mcprocd.pid"@),
            c.paths.socket_path@ == path_join(runtime@, "mcprocd.sock"@),
            c.paths.daemon_log_file@ == path_join(path_join(state@, "log"@), "mcprocd.log"@),
            c.has_default_settings(),
    {
        let log_dir = join(state, "log");
        let daemon_log_file = join(log_dir.as_str(), "mcprocd.log");
        Config {
            paths: PathConfig {
                data_dir: String::from_str(data),
                log_dir,
                pid_file: join(runtime, "mcprocd.pid"),
                socket_path: join(runtime, "mcprocd.sock"),
                daemon_log_file,
            },
            daemon: DaemonConfig {
                startup_timeout_ms: 2000,
                shutdown_grace_period_ms: 500,
                stop_check_interval_ms: 100,
                client_connection_timeout_secs: 5,
                client_startup_wait_ms: 1000,
            },
            process: ProcessConfig {
                startup: ProcessStartupConfig {
                    default_wait_timeout_secs: 30,
                    health_check_delay_ms: 500,
                },
                restart: ProcessRestartConfig {
                    max_attempts: 3,
                    delay_ms: 1000,
                    shutdown_timeout_ms: 5000,
                },
                port_detection: PortDetectionConfig {
                    initial_delay_secs: 3,
                    interval_secs: 3,
                    max_attempts: 30,
                },
                log_buffer_size: 10000,
                independent_process_groups: false,
            },
            logging: LoggingConfig {
                enable_file_logging: true,
                max_size_mb: 100,
                max_files: 10,
                ring_buffer_size: 10000,
                follow_poll_interval_ms: 100,
            },
            api: ApiConfig { unix_socket_permissions: 0o600, grpc_request_buffer_secs: 5 },
        }
    }

    /// The configuration file: `config.toml` in the configuration directory.
    pub fn get_config_file_path(env: &XdgEnv) -> (r: String)
        ensures
            r@ == path_join(config_dir(opt_string(env.config_home), opt_string(env.home)), "config.toml"@),
    {
        let dir = get_config_dir(as_opt_str(&env.config_home), as_opt_str(&env.home));
        join(dir.as_str(), "config.toml")
    }

    /// The daemon's log file.
    pub fn daemon_log_file(&self) -> (r: String)
        ensures
            r@ == self.paths.daemon_log_file@,
    {
        self.paths.daemon_log_file.clone()
    }

    /// The configuration a client uses: the defaults, in the XDG directories
    /// that the environment gives.
    pub fn for_client(env: &XdgEnv) -> (c: Self)
        ensures
            ({
                let data = data_dir(opt_string(env.data_home), opt_string(env.home));
                let state = state_dir(opt_string(env.state_home), opt_string(env.home));
                let run = runtime_dir(opt_string(env.runtime_dir), env.uid);
                &&& c.paths.data_dir@ == data
                &&& c.paths.log_dir@ == path_join(state, "log"@)
                &&& c.paths.pid_file@ == path_join(run, "mcprocd.pid"@)
                &&& c.paths.socket_path@ == path_join(run, "mcprocd.sock"@)
                &&& c.paths.daemon_log_file@ == path_join(path_join(state, "log"@), "mcprocd.log"@)
                &&& c.has_default_settings()
            }),
    {
        let data = get_data_dir(as_opt_str(&env.data_home), as_opt_str(&env.home));
        let state = get_state_dir(as_opt_str(&env.state_home), as_opt_str(&env.home));
        let run = get_runtime_dir(as_opt_str(&env.runtime_dir), env.uid);
        Config::from_dirs(data.as_str(), state.as_str(), run.as_str())
    }
}

} // verus!
