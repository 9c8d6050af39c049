//! Where the service's files live.
//!
//! Every location is derived afresh for each command, from the path of the
//! daemon's configuration file and from the user's home directory.
use vstd::prelude::*;
use crate::paths::{containing_dir, dir_of, home_dir, join, joined};
use crate::service::artifacts::service_label;
use crate::service::dialogue::{caused_error, plain_error, ErrorView, ServiceError};
use crate::service::{Config, Platform};
use crate::text::optional_text;

verus! {

/// The service definition that launchd or systemd reads.
#[derive(Debug, Clone, PartialEq, Eq)]
pub struct ServiceDefinition {
    /// The directory that holds the file.
    pub dir: String,
    /// The file itself.
    pub file: String,
}

/// [`ServiceDefinition`] as contracts speak of it: every text is the sequence
/// of its characters.
pub struct DefinitionView {
    pub dir: Seq<char>,
    pub file: Seq<char>,
}

impl View for ServiceDefinition {
    type V = DefinitionView;

    open spec fn view(&self) -> DefinitionView {
        DefinitionView { dir: self.dir@, file: self.file@ }
    }
}

/// The locations that a command works with.
#[derive(Debug, Clone, PartialEq, Eq)]
pub struct PlatformPaths {
    /// The service definition, on macOS and Linux where the home directory is
    /// known.
    pub service: Option<ServiceDefinition>,
    /// The directory of the log files.
    pub logs_dir: String,
    /// The log of the daemon's standard output.
    pub stdout_log: String,
    /// The log of the daemon's standard error.
    pub stderr_log: String,
    /// The log of the supervisor wrapper.
    pub supervisor_log: String,
    /// The supervisor wrapper script.
    pub wrapper: String,
    /// The daemon's state file.
    pub state_file: String,
}

/// [`PlatformPaths`] as contracts speak of it: every text is the sequence of its
/// characters.
pub struct PathsView {
    pub service: Option<DefinitionView>,
    pub logs_dir: Seq<char>,
    pub stdout_log: Seq<char>,
    pub stderr_log: Seq<char>,
    pub supervisor_log: Seq<char>,
    pub wrapper: Seq<char>,
    pub state_file: Seq<char>,
}

impl View for PlatformPaths {
    type V = PathsView;

    open spec fn view(&self) -> PathsView {
        PathsView {
            service: match self.service {
                Some(definition) => Some(definition@),
                None => None,
            },
            logs_dir: self.logs_dir@,
            stdout_log: self.stdout_log@,
            stderr_log: self.stderr_log@,
            supervisor_log: self.supervisor_log@,
            wrapper: self.wrapper@,
            state_file: self.state_file@,
        }
    }
}

/// The error for a home directory that cannot be found.
pub open spec fn home_error() -> ErrorView {
    plain_error("Could not find home directory"@)
}

/// The error for an executable whose path cannot be found.
pub open spec fn exe_error(cause: Seq<char>) -> ErrorView {
    caused_error("Failed to resolve current executable"@, cause)
}

/// The view of the executable's path, or of the reason why there is none.
pub open spec fn exe_view(exe: Result<String, String>) -> Result<Seq<char>, Seq<char>> {
    match exe {
        Ok(path) => Ok(path@),
        Err(cause) => Err(cause@),
    }
}

/// The directory of launchd's per-user agents, below `home`.
pub open spec fn macos_service_dir(home: Seq<char>) -> Seq<char> {
    joined(joined(home, "Library"@), "LaunchAgents"@)
}

/// The property list of the daemon, below `home`.
pub open spec fn macos_service_path(home: Seq<char>) -> Seq<char> {
    joined(macos_service_dir(home), service_label() + ".plist"@)
}

/// The directory of systemd's per-user units, below `home`.
pub open spec fn linux_service_dir(home: Seq<char>) -> Seq<char> {
    joined(joined(joined(home, ".config"@), "systemd"@), "user"@)
}

/// The unit file of the daemon, below `home`.
pub open spec fn linux_service_path(home: Seq<char>) -> Seq<char> {
    joined(linux_service_dir(home), "zeroclaw.service"@)
}

/// The directory of the log files, beside the configuration file.
pub open spec fn logs_dir_of(config_path: Seq<char>) -> Seq<char> {
    joined(dir_of(config_path), "logs"@)
}

/// The supervisor wrapper, among the log files.
pub open spec fn wrapper_path_of(config_path: Seq<char>) -> Seq<char> {
    joined(logs_dir_of(config_path), "zeroclaw-daemon.cmd"@)
}

/// The service definition for `platform`, below `home`.
pub open spec fn definition_of(platform: Platform, home: Option<Seq<char>>) -> Option<
    DefinitionView,
> {
    match (platform, home) {
        (Platform::MacOs, Some(home)) => Some(
            DefinitionView { dir: macos_service_dir(home), file: macos_service_path(home) },
        ),
        (Platform::Linux, Some(home)) => Some(
            DefinitionView { dir: linux_service_dir(home), file: linux_service_path(home) },
        ),
        _ => None,
    }
}

/// The locations for a daemon that is configured at `config_path`, of a user
/// whose home directory is `home`.
pub open spec fn derived_paths(
    platform: Platform,
    config_path: Seq<char>,
    home: Option<Seq<char>>,
) -> PathsView {
    PathsView {
        service: definition_of(platform, home),
        logs_dir: logs_dir_of(config_path),
        stdout_log: joined(logs_dir_of(config_path), "daemon.stdout.log"@),
        stderr_log: joined(logs_dir_of(config_path), "daemon.stderr.log"@),
        supervisor_log: joined(logs_dir_of(config_path), "daemon.supervisor.log"@),
        wrapper: wrapper_path_of(config_path),
        state_file: joined(dir_of(config_path), "daemon_state.json"@),
    }
}

/// The service definition of launchd, below `home`.
pub fn macos_service_definition(home: &str) -> (definition: ServiceDefinition)
    ensures
        Some(definition@) == definition_of(Platform::MacOs, Some(home@)),
{
    let library = join(home, "Library");
    let dir = join(library.as_str(), "LaunchAgents");
    let mut name = String::from_str("com.zeroclaw.daemon");
    name.append(".plist");
    let file = join(dir.as_str(), name.as_str());
    ServiceDefinition { dir, file }
}

/// The service definition of systemd, below `home`.
pub fn linux_service_definition(home: &str) -> (definition: ServiceDefinition)
    ensures
        Some(definition@) == definition_of(Platform::Linux, Some(home@)),
{
    let config = join(home, ".config");
    let systemd = join(config.as_str(), "systemd");
    let dir = join(systemd.as_str(), "user");
    let file = join(dir.as_str(), "zeroclaw.service");
    ServiceDefinition { dir, file }
}

/// The path of the daemon's property list, `Library/LaunchAgents/` and the
/// label with `.plist` below the home directory that is found for the current
/// user. Where none is found, it fails.
pub fn macos_service_file() -> (file: Result<String, ServiceError>)
    ensures
        match file {
            Ok(path) => exists|home: Seq<char>| path@ == macos_service_path(home),
            Err(e) => e@ == home_error(),
        },
{
    match home_dir() {
        Some(home) => {
            let definition = macos_service_definition(home.as_str());
            Ok(definition.file)
        },
        None => Err(ServiceError::new("Could not find home directory")),
    }
}

/// The path of the daemon's unit file, `.config/systemd/user/zeroclaw.service`
/// below the home directory that is found for the current user. Where none is
/// found, it fails. The configuration plays no part in it.
pub fn linux_service_file(config: &Config) -> (file: Result<String, ServiceError>)
    ensures
        match file {
            Ok(path) => exists|home: Seq<char>| path@ == linux_service_path(home),
            Err(e) => e@ == home_error(),
        },
{
    match home_dir() {
        Some(home) => {
            let definition = linux_service_definition(home.as_str());
            Ok(definition.file)
        },
        None => Err(ServiceError::new("Could not find home directory")),
    }
}

/// The path of the supervisor wrapper: `logs/zeroclaw-daemon.cmd` beside the
/// configuration file.
pub fn windows_wrapper_path(config: &Config) -> (path: String)
    ensures
        path@ == wrapper_path_of(config.config_path@),
{
    let dir = containing_dir(config.config_path.as_str());
    let logs = join(dir.as_str(), "logs");
    join(logs.as_str(), "zeroclaw-daemon.cmd")
}

/// Derives every location from the configuration and the home directory.
pub fn platform_paths(platform: Platform, config: &Config, home: Option<String>) -> (paths:
    PlatformPaths)
    ensures
        paths@ == derived_paths(platform, config.config_path@, optional_text(home)),
{
    let service = match (platform, &home) {
        (Platform::MacOs, Some(home)) => Some(macos_service_definition(home.as_str())),
        (Platform::Linux, Some(home)) => Some(linux_service_definition(home.as_str())),
        _ => None,
    };
    let dir = containing_dir(config.config_path.as_str());
    let logs_dir = join(dir.as_str(), "logs");
    let stdout_log = join(logs_dir.as_str(), "daemon.stdout.log");
    let stderr_log = join(logs_dir.as_str(), "daemon.stderr.log");
    let supervisor_log = join(logs_dir.as_str(), "daemon.supervisor.log");
    let wrapper = join(logs_dir.as_str(), "zeroclaw-daemon.cmd");
    let state_file = join(dir.as_str(), "daemon_state.json");
    PlatformPaths { service, logs_dir, stdout_log, stderr_log, supervisor_log, wrapper, state_file }
}

} // verus!
