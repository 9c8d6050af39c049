//! Service lifecycle management.
//!
//! A command is one of install, start, stop, status and uninstall. It is
//! carried out by the strategy of the platform it runs on: launchd on macOS,
//! the user's systemd on Linux, and on Windows a scheduled task, or an entry
//! under the registry's `Run` key where no task can be had.
//!
//! A command runs as a [`Session`]. The session keeps the replies it was given,
//! and what it says next is a function of them: the plan of the command.
pub mod artifacts;
pub mod dialogue;
pub mod laws;
pub mod linux;
pub mod locations;
pub mod macos;
pub mod runner;
pub mod supervisor;
pub mod windows;

use vstd::prelude::*;
use crate::paths::{home_dir, join, joined};
use crate::service::dialogue::{
    fail, plain_error, ErrorView, Reply, ReplyView, ServiceError, Turn, TurnView,
};
use crate::service::linux::{
    install_linux, install_linux_plan, start_linux, start_linux_plan, status_linux,
    status_linux_plan, stop_linux, stop_linux_plan, uninstall_linux, uninstall_linux_plan,
};
use crate::service::locations::{derived_paths, exe_view, platform_paths, PathsView, PlatformPaths};
use crate::service::macos::{
    install_macos, install_macos_plan, start_macos, start_macos_plan, status_macos,
    status_macos_plan, stop_macos, stop_macos_plan, uninstall_macos, uninstall_macos_plan,
};
use crate::service::windows::{
    install_windows, install_windows_plan, start_windows, start_windows_plan, status_windows,
    status_windows_plan, stop_windows, stop_windows_plan, uninstall_windows, uninstall_windows_plan,
};

verus! {

/// The operating system whose service manager is used.
#[derive(Debug, Clone, Copy, PartialEq, Eq, Structural)]
pub enum Platform {
    MacOs,
    Linux,
    Windows,
    /// Any other system: every command fails there.
    Unsupported,
}

/// What can be done with the service.
#[derive(Debug, Clone, Copy, PartialEq, Eq, Structural)]
pub enum ServiceCommands {
    Install,
    Start,
    Stop,
    Status,
    Uninstall,
}

/// The part of the daemon's configuration that service management reads.
#[derive(Debug, Clone, PartialEq, Eq)]
pub struct Config {
    /// The path of the configuration file. The logs and the daemon's state
    /// live beside it.
    pub config_path: String,
}

/// Where the configuration file of a user is kept, below the home directory
/// `home`.
pub open spec fn default_config_path(home: Seq<char>) -> Seq<char> {
    joined(joined(home, ".zeroclaw"@), "config.toml"@)
}

impl Default for Config {
    /// The configuration of the current user: the file `.zeroclaw/config.toml`
    /// below the home directory, or below `.` where none can be found.
    fn default() -> (config: Config)
        ensures
            exists|home: Seq<char>| config.config_path@ == #[trigger] default_config_path(home),
    {
        let home = match home_dir() {
            Some(home) => home,
            None => String::from_str("."),
        };
        let dir = join(home.as_str(), ".zeroclaw");
        let config = Config { config_path: join(dir.as_str(), "config.toml") };
        assert(config.config_path@ == default_config_path(home@));
        config
    }
}

/// The error of every command on a platform without a strategy.
pub open spec fn unsupported_error() -> ErrorView {
    plain_error("Service management is supported on macOS and Linux only"@)
}

/// What `install` says after the replies `r`.
pub open spec fn install_plan(
    platform: Platform,
    exe: Result<Seq<char>, Seq<char>>,
    paths: PathsView,
    r: Seq<ReplyView>,
) -> TurnView {
    match platform {
        Platform::MacOs => install_macos_plan(exe, paths, r),
        Platform::Linux => install_linux_plan(exe, paths, r),
        Platform::Windows => install_windows_plan(exe, paths, r),
        Platform::Unsupported => fail(unsupported_error()),
    }
}

/// What `start` says after the replies `r`.
pub open spec fn start_plan(platform: Platform, paths: PathsView, r: Seq<ReplyView>) -> TurnView {
    match platform {
        Platform::MacOs => start_macos_plan(paths, r),
        Platform::Linux => start_linux_plan(r),
        Platform::Windows => start_windows_plan(paths, r),
        Platform::Unsupported => fail(unsupported_error()),
    }
}

/// What `stop` says after the replies `r`.
pub open spec fn stop_plan(platform: Platform, paths: PathsView, r: Seq<ReplyView>) -> TurnView {
    match platform {
        Platform::MacOs => stop_macos_plan(paths, r),
        Platform::Linux => stop_linux_plan(r),
        Platform::Windows => stop_windows_plan(r),
        Platform::Unsupported => fail(unsupported_error()),
    }
}

/// What `status` says after the replies `r`.
pub open spec fn status_plan(platform: Platform, paths: PathsView, r: Seq<ReplyView>) -> TurnView {
    match platform {
        Platform::MacOs => status_macos_plan(paths, r),
        Platform::Linux => status_linux_plan(paths, r),
        Platform::Windows => status_windows_plan(paths, r),
        Platform::Unsupported => fail(unsupported_error()),
    }
}

/// What `uninstall` says after the replies `r`.
pub open spec fn uninstall_plan(
    platform: Platform,
    paths: PathsView,
    r: Seq<ReplyView>,
) -> TurnView {
    match platform {
        Platform::MacOs => uninstall_macos_plan(paths, r),
        Platform::Linux => uninstall_linux_plan(paths, r),
        Platform::Windows => uninstall_windows_plan(paths, r),
        Platform::Unsupported => fail(unsupported_error()),
    }
}

/// One command under way.
#[derive(Debug, PartialEq, Eq)]
pub struct Session {
    /// The command.
    pub command: ServiceCommands,
    /// The platform whose strategy carries it out.
    pub platform: Platform,
    /// The path of the daemon's executable, or why it could not be found.
    pub exe: Result<String, String>,
    /// The locations that the command works with.
    pub paths: PlatformPaths,
    /// The replies given so far, oldest first.
    pub replies: Vec<Reply>,
}

/// [`Session`] as contracts speak of it: every text is the sequence of its
/// characters.
pub struct SessionView {
    pub command: ServiceCommands,
    pub platform: Platform,
    pub exe: Result<Seq<char>, Seq<char>>,
    pub paths: PathsView,
    pub replies: Seq<ReplyView>,
}

impl View for Session {
    type V = SessionView;

    open spec fn view(&self) -> SessionView {
        SessionView {
            command: self.command,
            platform: self.platform,
            exe: exe_view(self.exe),
            paths: self.paths@,
            replies: self.replies.deep_view(),
        }
    }
}

/// What a session says next: the plan of its command, on its platform, after
/// the replies it was given.
pub open spec fn plan(s: SessionView) -> TurnView {
    match s.command {
        ServiceCommands::Install => install_plan(s.platform, s.exe, s.paths, s.replies),
        ServiceCommands::Start => start_plan(s.platform, s.paths, s.replies),
        ServiceCommands::Stop => stop_plan(s.platform, s.paths, s.replies),
        ServiceCommands::Status => status_plan(s.platform, s.paths, s.replies),
        ServiceCommands::Uninstall => uninstall_plan(s.platform, s.paths, s.replies),
    }
}

/// The session of `command` before any reply.
pub open spec fn opening(
    command: ServiceCommands,
    platform: Platform,
    exe: Result<Seq<char>, Seq<char>>,
    paths: PathsView,
) -> SessionView {
    SessionView { command, platform, exe, paths, replies: Seq::empty() }
}

/// The session `s` after one more reply.
pub open spec fn after(s: SessionView, reply: ReplyView) -> SessionView {
    SessionView { replies: s.replies.push(reply), ..s }
}

fn unsupported() -> (turn: Turn)
    ensures
        turn@ == fail(unsupported_error()),
{
    Turn::fail(ServiceError::new("Service management is supported on macOS and Linux only"))
}

/// The next turn of an installation, after `replies`.
pub fn install(
    platform: Platform,
    exe: &Result<String, String>,
    paths: &PlatformPaths,
    replies: &Vec<Reply>,
) -> (turn: Turn)
    ensures
        turn@ == install_plan(platform, exe_view(*exe), paths@, replies.deep_view()),
{
    match platform {
        Platform::MacOs => install_macos(exe, paths, replies),
        Platform::Linux => install_linux(exe, paths, replies),
        Platform::Windows => install_windows(exe, paths, replies),
        Platform::Unsupported => unsupported(),
    }
}

/// The next turn of a start, after `replies`.
pub fn start(platform: Platform, paths: &PlatformPaths, replies: &Vec<Reply>) -> (turn: Turn)
    ensures
        turn@ == start_plan(platform, paths@, replies.deep_view()),
{
    match platform {
        Platform::MacOs => start_macos(paths, replies),
        Platform::Linux => start_linux(replies),
        Platform::Windows => start_windows(paths, replies),
        Platform::Unsupported => unsupported(),
    }
}

/// The next turn of a stop, after `replies`.
pub fn stop(platform: Platform, paths: &PlatformPaths, replies: &Vec<Reply>) -> (turn: Turn)
    ensures
        turn@ == stop_plan(platform, paths@, replies.deep_view()),
{
    match platform {
        Platform::MacOs => stop_macos(paths, replies),
        Platform::Linux => stop_linux(replies),
        Platform::Windows => stop_windows(replies),
        Platform::Unsupported => unsupported(),
    }
}

/// The next turn of a status query, after `replies`.
pub fn status(platform: Platform, paths: &PlatformPaths, replies: &Vec<Reply>) -> (turn: Turn)
    ensures
        turn@ == status_plan(platform, paths@, replies.deep_view()),
{
    match platform {
        Platform::MacOs => status_macos(paths, replies),
        Platform::Linux => status_linux(paths, replies),
        Platform::Windows => status_windows(paths, replies),
        Platform::Unsupported => unsupported(),
    }
}

/// The next turn of an uninstallation, after `replies`.
pub fn uninstall(platform: Platform, paths: &PlatformPaths, replies: &Vec<Reply>) -> (turn: Turn)
    ensures
        turn@ == uninstall_plan(platform, paths@, replies.deep_view()),
{
    match platform {
        Platform::MacOs => uninstall_macos(paths, replies),
        Platform::Linux => uninstall_linux(paths, replies),
        Platform::Windows => uninstall_windows(paths, replies),
        Platform::Unsupported => unsupported(),
    }
}

impl Session {
    /// Opens the session of `command` and says its first turn.
    pub fn begin(
        command: ServiceCommands,
        platform: Platform,
        exe: Result<String, String>,
        paths: PlatformPaths,
    ) -> (started: (Session, Turn))
        ensures
            started.0@ == opening(command, platform, exe_view(exe), paths@),
            started.1@ == plan(started.0@),
    {
        let session = Session { command, platform, exe, paths, replies: Vec::new() };
        proof {
            assert(session.replies.deep_view() =~= Seq::<ReplyView>::empty());
        }
        let turn = session.turn();
        (session, turn)
    }

    /// What the session says after the replies it has.
    pub fn turn(&self) -> (turn: Turn)
        ensures
            turn@ == plan(self@),
    {
        match self.command {
            ServiceCommands::Install => install(
                self.platform,
                &self.exe,
                &self.paths,
                &self.replies,
            ),
            ServiceCommands::Start => start(self.platform, &self.paths, &self.replies),
            ServiceCommands::Stop => stop(self.platform, &self.paths, &self.replies),
            ServiceCommands::Status => status(self.platform, &self.paths, &self.replies),
            ServiceCommands::Uninstall => uninstall(self.platform, &self.paths, &self.replies),
        }
    }

    /// Takes the reply to the request of the last turn and says the next turn.
    pub fn resume(&mut self, reply: Reply) -> (turn: Turn)
        ensures
            final(self)@ == after(old(self)@, reply@),
            turn@ == plan(final(self)@),
    {
        let ghost before = self.replies.deep_view();
        self.replies.push(reply);
        proof {
            assert(self.replies.deep_view() =~= before.push(reply@));
        }
        self.turn()
    }
}

/// Begins `command` for the daemon that is configured by `config` and whose
/// executable is `exe`, with the strategy of `platform`. On macOS and Linux the
/// home directory of the current user is looked up; every location follows
/// from it and from the configuration.
pub fn handle_command(
    command: &ServiceCommands,
    config: &Config,
    platform: Platform,
    exe: Result<String, String>,
) -> (started: (Session, Turn))
    ensures
        exists|home: Option<Seq<char>>|
            started.0@ == opening(
                *command,
                platform,
                exe_view(exe),
                #[trigger] derived_paths(platform, config.config_path@, home),
            ),
        started.1@ == plan(started.0@),
{
    let home = match platform {
        Platform::MacOs => home_dir(),
        Platform::Linux => home_dir(),
        _ => None,
    };
    let paths = platform_paths(platform, config, home);
    Session::begin(*command, platform, exe, paths)
}

} // verus!
