use std::collections::BTreeMap;
use zeroclaw::service::dialogue::{CommandOutput, Need, Reply, Request, ServiceError, Step};
use zeroclaw::service::locations::{
    linux_service_file, platform_paths, windows_wrapper_path, PlatformPaths, ServiceDefinition,
};
use zeroclaw::service::supervisor::build_windows_supervisor_wrapper;
use zeroclaw::service::windows::{
    is_access_denied, task_status_report, windows_daemon_running, windows_run_key_exists,
};
use zeroclaw::service::{handle_command, Config, Platform, ServiceCommands, Session};

const UNSUPPORTED: &str = "Service management is supported on macOS and Linux only";

struct Host {
    files: BTreeMap<String, String>,
    dirs: Vec<String>,
    task: bool,
    run_key: bool,
    loaded: bool,
    processes: u32,
    task_state: &'static str,
    deny_task: Option<&'static str>,
    deny_limited: bool,
    refuse_run_key: bool,
    read_only: bool,
    no_tools: bool,
    unit_state: &'static str,
    printed: Vec<String>,
    asked: Vec<Request>,
}

fn host() -> Host {
    Host {
        files: BTreeMap::new(),
        dirs: Vec::new(),
        task: false,
        run_key: false,
        loaded: false,
        processes: 0,
        task_state: "Ready",
        deny_task: None,
        deny_limited: true,
        refuse_run_key: false,
        read_only: false,
        no_tools: false,
        unit_state: "inactive",
        printed: Vec::new(),
        asked: Vec::new(),
    }
}

fn exited(success: bool, stdout: &str, stderr: &str) -> Reply {
    Reply::Exited(CommandOutput {
        success,
        stdout: stdout.to_string(),
        stderr: stderr.to_string(),
    })
}

fn has(args: &[String], word: &str) -> bool {
    args.iter().any(|arg| arg == word)
}

fn run(host: &mut Host, program: &str, args: &[String]) -> Reply {
    if host.no_tools {
        return Reply::NotStarted("No such file or directory (os error 2)".to_string());
    }
    match program {
        "schtasks" if has(args, "/Create") => {
            let limited = has(args, "LIMITED");
            match host.deny_task {
                Some(message) if !limited || host.deny_limited => exited(false, "", message),
                _ => {
                    host.task = true;
                    exited(true, "SUCCESS: The scheduled task was created.\r\n", "")
                }
            }
        }
        "schtasks" if has(args, "/Delete") => {
            let was = host.task;
            host.task = false;
            exited(was, "", if was { "" } else { "ERROR: The system cannot find the file specified.\r\n" })
        }
        "schtasks" if has(args, "/Query") => {
            if host.task {
                let listing = format!(
                    "\r\nFolder: \\\r\nTaskName: \\ZeroClaw Daemon\r\nStatus: {}\r\n",
                    host.task_state
                );
                exited(true, &listing, "")
            } else {
                exited(false, "", "ERROR: The system cannot find the file specified.\r\n")
            }
        }
        "schtasks" if has(args, "/Run") => {
            if host.task {
                host.processes = 1;
                exited(true, "SUCCESS\r\n", "")
            } else {
                exited(false, "", "ERROR: The system cannot find the file specified.\r\n")
            }
        }
        "schtasks" if has(args, "/End") => exited(host.task, "", ""),
        "reg" if has(args, "ADD") => {
            if host.refuse_run_key {
                exited(false, "", "ERROR: Registry editing has been disabled.\r\n")
            } else {
                host.run_key = true;
                exited(true, "The operation completed successfully.\r\n", "")
            }
        }
        "reg" if has(args, "DELETE") => {
            let was = host.run_key;
            host.run_key = false;
            exited(was, "", "")
        }
        "reg" if has(args, "QUERY") => exited(host.run_key, "", ""),
        "cmd" => {
            host.processes = 1;
            exited(true, "", "")
        }
        "powershell" if args.iter().any(|arg| arg.contains("Stop-Process")) => {
            host.processes = 0;
            exited(true, "", "")
        }
        "powershell" => exited(true, &format!("{}\r\n", host.processes), ""),
        "launchctl" if has(args, "list") => {
            let mut listing = "PID\tStatus\tLabel\n-\t0\tcom.apple.Finder\n".to_string();
            if host.loaded {
                listing.push_str("412\t0\tcom.zeroclaw.daemon\n");
            }
            exited(true, &listing, "")
        }
        "launchctl" if has(args, "load") || has(args, "start") => {
            let plist_there = host.files.keys().any(|path| path.ends_with(".plist"));
            if plist_there {
                host.loaded = true;
                exited(true, "", "")
            } else {
                exited(false, "", "Load failed: 5: Input/output error\n")
            }
        }
        "launchctl" => {
            let was = host.loaded;
            host.loaded = false;
            exited(was, "", if was { "" } else { "Could not find specified service\n" })
        }
        "systemctl" if has(args, "is-active") => {
            exited(host.unit_state == "active", &format!("{}\n", host.unit_state), "")
        }
        "systemctl" if has(args, "start") => {
            if host.files.keys().any(|path| path.ends_with("zeroclaw.service")) {
                host.unit_state = "active";
                exited(true, "", "")
            } else {
                exited(false, "", "Failed to start zeroclaw.service: Unit zeroclaw.service not found.\n")
            }
        }
        "systemctl" if has(args, "stop") => {
            host.unit_state = "inactive";
            exited(true, "", "")
        }
        "systemctl" => exited(true, "", ""),
        _ => Reply::NotStarted(format!("{}: program not found", program)),
    }
}

fn perform(host: &mut Host, request: &Request) -> Reply {
    host.asked.push(request.clone());
    match request {
        Request::CreateDirAll { path } => {
            if host.read_only {
                Reply::Failed("Read-only file system (os error 30)".to_string())
            } else {
                host.dirs.push(path.clone());
                Reply::Done
            }
        }
        Request::WriteFile { path, content } => {
            if host.read_only {
                Reply::Failed("Read-only file system (os error 30)".to_string())
            } else {
                host.files.insert(path.clone(), content.clone());
                Reply::Done
            }
        }
        Request::RemoveFile { path } => {
            if host.read_only {
                Reply::Failed("Read-only file system (os error 30)".to_string())
            } else if host.files.remove(path).is_some() {
                Reply::Done
            } else {
                Reply::Failed("No such file or directory (os error 2)".to_string())
            }
        }
        Request::PathExists { path } => Reply::Exists(host.files.contains_key(path)),
        Request::Run { program, args } => run(host, program, args),
    }
}

fn windows_paths() -> PlatformPaths {
    PlatformPaths {
        service: None,
        logs_dir: "C:\\zc\\logs".to_string(),
        stdout_log: "C:\\zc\\logs\\daemon.stdout.log".to_string(),
        stderr_log: "C:\\zc\\logs\\daemon.stderr.log".to_string(),
        supervisor_log: "C:\\zc\\logs\\daemon.supervisor.log".to_string(),
        wrapper: "C:\\zc\\logs\\zeroclaw-daemon.cmd".to_string(),
        state_file: "C:\\zc\\daemon_state.json".to_string(),
    }
}

fn unix_paths(dir: &str, file: &str) -> PlatformPaths {
    PlatformPaths {
        service: Some(ServiceDefinition { dir: dir.to_string(), file: file.to_string() }),
        logs_dir: "/home/alice/.zeroclaw/logs".to_string(),
        stdout_log: "/home/alice/.zeroclaw/logs/daemon.stdout.log".to_string(),
        stderr_log: "/home/alice/.zeroclaw/logs/daemon.stderr.log".to_string(),
        supervisor_log: "/home/alice/.zeroclaw/logs/daemon.supervisor.log".to_string(),
        wrapper: "/home/alice/.zeroclaw/logs/zeroclaw-daemon.cmd".to_string(),
        state_file: "/home/alice/.zeroclaw/daemon_state.json".to_string(),
    }
}

fn macos_paths() -> PlatformPaths {
    unix_paths(
        "/Users/alice/Library/LaunchAgents",
        "/Users/alice/Library/LaunchAgents/com.zeroclaw.daemon.plist",
    )
}

fn linux_paths() -> PlatformPaths {
    unix_paths(
        "/home/alice/.config/systemd/user",
        "/home/alice/.config/systemd/user/zeroclaw.service",
    )
}

fn homeless(mut paths: PlatformPaths) -> PlatformPaths {
    paths.service = None;
    paths
}

fn exe() -> Result<String, String> {
    Ok("C:\\bin\\zeroclaw.exe".to_string())
}

fn drive(
    host: &mut Host,
    command: ServiceCommands,
    platform: Platform,
    exe: Result<String, String>,
    paths: PlatformPaths,
) -> Result<(), ServiceError> {
    let (mut session, mut turn) = Session::begin(command, platform, exe, paths);
    for _ in 0..32 {
        host.printed.append(&mut turn.lines);
        match turn.step {
            Step::Finish(result) => {
                let again = session.resume(Reply::Done);
                assert_eq!(again.step, Step::Finish(result.clone()));
                return result;
            }
            Step::Ask { request, .. } => {
                let reply = perform(host, &request);
                turn = session.resume(reply);
            }
        }
    }
    panic!("the command did not end");
}

fn programs(host: &Host) -> Vec<String> {
    host.asked
        .iter()
        .filter_map(|request| match request {
            Request::Run { program, args } => Some(format!("{} {}", program, args.join(" "))),
            _ => None,
        })
        .collect()
}

#[test]
fn install_falls_back_to_the_run_key_when_task_creation_is_denied() {
    let mut host = host();
    host.task = true;
    host.deny_task = Some("ERROR: Access is denied.\r\n");
    let paths = windows_paths();
    let result = drive(&mut host, ServiceCommands::Install, Platform::Windows, exe(), paths.clone());
    assert_eq!(result, Ok(()));
    assert!(!host.task);
    assert!(host.run_key);
    let script = build_windows_supervisor_wrapper(
        "C:\\bin\\zeroclaw.exe",
        &paths.state_file,
        &paths.stdout_log,
        &paths.stderr_log,
        &paths.supervisor_log,
    );
    assert_eq!(host.files.get(&paths.wrapper), Some(&script));
    assert_eq!(host.dirs, vec!["C:\\zc\\logs".to_string()]);
    assert_eq!(
        programs(&host),
        vec![
            "schtasks /Delete /TN ZeroClaw Daemon /F",
            "schtasks /Create /TN ZeroClaw Daemon /SC ONLOGON /TR \"C:\\zc\\logs\\zeroclaw-daemon.cmd\" /RL HIGHEST /F",
            "schtasks /Create /TN ZeroClaw Daemon /SC ONLOGON /TR \"C:\\zc\\logs\\zeroclaw-daemon.cmd\" /RL LIMITED /F",
            "reg ADD HKCU\\Software\\Microsoft\\Windows\\CurrentVersion\\Run /V ZeroClawDaemon /T REG_SZ /D \"C:\\zc\\logs\\zeroclaw-daemon.cmd\" /F",
        ]
    );
    assert_eq!(
        host.printed,
        vec![
            "✅ Installed Windows startup registry entry: HKCU\\...\\Run\\ZeroClawDaemon",
            "   Wrapper: C:\\zc\\logs\\zeroclaw-daemon.cmd",
            "   Logs: C:\\zc\\logs",
            "   Restart policy: always (supervisor loop, 5s delay)",
            "   Note: scheduled task unavailable (Command failed: ERROR: Access is denied.)",
            "   Start with: zeroclaw service start",
        ]
    );
}

#[test]
fn install_retries_with_the_limited_level_when_access_is_denied() {
    let mut host = host();
    host.deny_task = Some("ERROR: Acceso denegado.\r\n");
    host.deny_limited = false;
    let result = drive(&mut host, ServiceCommands::Install, Platform::Windows, exe(), windows_paths());
    assert_eq!(result, Ok(()));
    assert!(host.task);
    assert!(!host.run_key);
    assert_eq!(programs(&host).len(), 3);
    assert!(programs(&host)[2].contains("/RL LIMITED"));
    assert_eq!(
        host.printed,
        vec![
            "✅ Installed Windows scheduled task: ZeroClaw Daemon",
            "   Wrapper: C:\\zc\\logs\\zeroclaw-daemon.cmd",
            "   Logs: C:\\zc\\logs",
            "   Restart policy: always (supervisor loop, 5s delay)",
            "   Start with: zeroclaw service start",
        ]
    );
}

#[test]
fn install_does_not_retry_after_another_failure_and_falls_back() {
    let mut host = host();
    host.deny_task = Some("ERROR: The task XML is malformed.\r\n");
    host.deny_limited = false;
    let result = drive(&mut host, ServiceCommands::Install, Platform::Windows, exe(), windows_paths());
    assert_eq!(result, Ok(()));
    assert!(!host.task);
    assert!(host.run_key);
    let ran = programs(&host);
    assert_eq!(ran.len(), 3);
    assert!(ran[1].contains("/RL HIGHEST"));
    assert!(ran[2].starts_with("reg ADD"));
    assert!(host.printed[4].contains("(Command failed: ERROR: The task XML is malformed.)"));
}

#[test]
fn install_creates_the_task_at_the_highest_level_where_it_may() {
    let mut host = host();
    let result = drive(&mut host, ServiceCommands::Install, Platform::Windows, exe(), windows_paths());
    assert_eq!(result, Ok(()));
    assert!(host.task);
    assert!(!host.run_key);
    assert_eq!(programs(&host).len(), 2);
    assert_eq!(host.printed[0], "✅ Installed Windows scheduled task: ZeroClaw Daemon");
    assert!(host.files.contains_key("C:\\zc\\logs\\zeroclaw-daemon.cmd"));
}

#[test]
fn install_fails_where_neither_task_nor_run_key_can_be_had() {
    let mut host = host();
    host.deny_task = Some("ERROR: Access is denied.\r\n");
    host.refuse_run_key = true;
    let result = drive(&mut host, ServiceCommands::Install, Platform::Windows, exe(), windows_paths());
    assert_eq!(
        result,
        Err(ServiceError::new("Command failed: ERROR: Registry editing has been disabled."))
    );
    assert!(host.printed.is_empty());
}

#[test]
fn install_on_windows_needs_the_executable_and_the_log_directory() {
    let mut host = host();
    let result = drive(
        &mut host,
        ServiceCommands::Install,
        Platform::Windows,
        Err("No such file or directory (os error 2)".to_string()),
        windows_paths(),
    );
    assert_eq!(
        result,
        Err(ServiceError::caused_by(
            "Failed to resolve current executable",
            "No such file or directory (os error 2)"
        ))
    );
    assert!(host.asked.is_empty());

    host.read_only = true;
    let result = drive(&mut host, ServiceCommands::Install, Platform::Windows, exe(), windows_paths());
    assert_eq!(result, Err(ServiceError::new("Read-only file system (os error 30)")));
    assert_eq!(host.asked.len(), 1);
}

#[test]
fn status_after_stop_reports_not_running_and_still_names_the_artifacts() {
    let mut host = host();
    let paths = windows_paths();
    host.deny_task = Some("ERROR: Access is denied.\r\n");
    assert_eq!(
        drive(&mut host, ServiceCommands::Install, Platform::Windows, exe(), paths.clone()),
        Ok(())
    );
    host.deny_task = None;
    host.task = true;
    assert_eq!(drive(&mut host, ServiceCommands::Start, Platform::Windows, exe(), paths.clone()), Ok(()));
    assert_eq!(host.processes, 1);
    assert_eq!(drive(&mut host, ServiceCommands::Stop, Platform::Windows, exe(), paths.clone()), Ok(()));
    assert_eq!(host.processes, 0);
    host.printed.clear();
    assert_eq!(drive(&mut host, ServiceCommands::Status, Platform::Windows, exe(), paths.clone()), Ok(()));
    assert_eq!(
        host.printed,
        vec![
            "Service: ❌ not running",
            "Mode: stopped",
            "Task: ZeroClaw Daemon",
            "Startup entry: HKCU\\...\\Run\\ZeroClawDaemon",
            "Wrapper: C:\\zc\\logs\\zeroclaw-daemon.cmd",
        ]
    );
    assert!(host.task && host.run_key && host.files.contains_key(&paths.wrapper));
}

#[test]
fn status_after_stop_names_the_unit_on_macos_and_linux() {
    let mut mac = host();
    let paths = macos_paths();
    let exe = Ok("/usr/local/bin/zeroclaw".to_string());
    assert_eq!(drive(&mut mac, ServiceCommands::Install, Platform::MacOs, exe.clone(), paths.clone()), Ok(()));
    assert_eq!(drive(&mut mac, ServiceCommands::Start, Platform::MacOs, exe.clone(), paths.clone()), Ok(()));
    assert!(mac.loaded);
    assert_eq!(drive(&mut mac, ServiceCommands::Stop, Platform::MacOs, exe.clone(), paths.clone()), Ok(()));
    mac.printed.clear();
    assert_eq!(drive(&mut mac, ServiceCommands::Status, Platform::MacOs, exe.clone(), paths.clone()), Ok(()));
    assert_eq!(
        mac.printed,
        vec![
            "Service: ❌ not loaded",
            "Unit: /Users/alice/Library/LaunchAgents/com.zeroclaw.daemon.plist",
        ]
    );
    assert!(mac.files.contains_key("/Users/alice/Library/LaunchAgents/com.zeroclaw.daemon.plist"));

    let mut linux = host();
    let paths = linux_paths();
    assert_eq!(drive(&mut linux, ServiceCommands::Install, Platform::Linux, exe.clone(), paths.clone()), Ok(()));
    assert_eq!(drive(&mut linux, ServiceCommands::Start, Platform::Linux, exe.clone(), paths.clone()), Ok(()));
    assert_eq!(drive(&mut linux, ServiceCommands::Stop, Platform::Linux, exe.clone(), paths.clone()), Ok(()));
    linux.printed.clear();
    assert_eq!(drive(&mut linux, ServiceCommands::Status, Platform::Linux, exe.clone(), paths.clone()), Ok(()));
    assert_eq!(
        linux.printed,
        vec![
            "Service state: inactive",
            "Unit: /home/alice/.config/systemd/user/zeroclaw.service",
        ]
    );
    assert!(linux.files.contains_key("/home/alice/.config/systemd/user/zeroclaw.service"));
}

#[test]
fn windows_status_tells_the_modes_apart() {
    let paths = windows_paths();
    let mut host = host();
    assert_eq!(drive(&mut host, ServiceCommands::Status, Platform::Windows, exe(), paths.clone()), Ok(()));
    assert_eq!(host.printed, vec!["Service: ❌ not installed"]);

    host.printed.clear();
    host.run_key = true;
    host.processes = 2;
    assert_eq!(drive(&mut host, ServiceCommands::Status, Platform::Windows, exe(), paths.clone()), Ok(()));
    assert_eq!(
        host.printed,
        vec![
            "Service: ✅ running (startup-registry mode)",
            "Startup entry: HKCU\\...\\Run\\ZeroClawDaemon",
            "Wrapper: C:\\zc\\logs\\zeroclaw-daemon.cmd",
        ]
    );

    host.printed.clear();
    host.processes = 0;
    assert_eq!(drive(&mut host, ServiceCommands::Status, Platform::Windows, exe(), paths.clone()), Ok(()));
    assert_eq!(host.printed[0], "Service: ❌ not running (startup-registry mode)");

    host.printed.clear();
    host.run_key = false;
    host.task = true;
    host.task_state = "Running";
    assert_eq!(drive(&mut host, ServiceCommands::Status, Platform::Windows, exe(), paths.clone()), Ok(()));
    assert_eq!(
        host.printed,
        vec!["Service: ✅ running", "Mode: scheduled-task mode", "Task: ZeroClaw Daemon"]
    );

    host.printed.clear();
    host.task_state = "Ready";
    host.processes = 1;
    assert_eq!(drive(&mut host, ServiceCommands::Status, Platform::Windows, exe(), paths.clone()), Ok(()));
    assert_eq!(
        host.printed,
        vec!["Service: ✅ running", "Mode: startup-registry mode", "Task: ZeroClaw Daemon"]
    );
}

#[test]
fn task_status_is_the_or_of_both_signals() {
    assert_eq!(
        task_status_report(true, true),
        vec!["Service: ✅ running", "Mode: scheduled-task mode", "Task: ZeroClaw Daemon"]
    );
    assert_eq!(task_status_report(true, false)[0], "Service: ✅ running");
    assert_eq!(task_status_report(false, true)[1], "Mode: startup-registry mode");
    assert_eq!(
        task_status_report(false, false),
        vec!["Service: ❌ not running", "Mode: stopped", "Task: ZeroClaw Daemon"]
    );
}

#[test]
fn windows_start_uses_the_wrapper_where_only_the_run_key_is_there() {
    let paths = windows_paths();
    let mut host = host();
    host.run_key = true;
    assert_eq!(drive(&mut host, ServiceCommands::Start, Platform::Windows, exe(), paths.clone()), Ok(()));
    assert_eq!(host.printed, vec!["✅ Service started (startup-registry mode)"]);
    assert_eq!(
        programs(&host),
        vec![
            "schtasks /Run /TN ZeroClaw Daemon",
            "reg QUERY HKCU\\Software\\Microsoft\\Windows\\CurrentVersion\\Run /V ZeroClawDaemon",
            "cmd /C start \"ZeroClaw Daemon\" /MIN C:\\zc\\logs\\zeroclaw-daemon.cmd",
        ]
    );
}

#[test]
fn windows_start_fails_as_the_task_did_where_nothing_is_installed() {
    let mut host = host();
    let result = drive(&mut host, ServiceCommands::Start, Platform::Windows, exe(), windows_paths());
    assert_eq!(
        result,
        Err(ServiceError::new("Command failed: ERROR: The system cannot find the file specified."))
    );
    assert_eq!(programs(&host).len(), 2);
    assert!(host.printed.is_empty());
}

#[test]
fn windows_start_runs_the_task_where_there_is_one() {
    let mut host = host();
    host.task = true;
    assert_eq!(drive(&mut host, ServiceCommands::Start, Platform::Windows, exe(), windows_paths()), Ok(()));
    assert_eq!(host.printed, vec!["✅ Service started"]);
    assert_eq!(programs(&host).len(), 1);
}

#[test]
fn stop_succeeds_whatever_the_tools_say() {
    for (platform, paths) in [
        (Platform::Windows, windows_paths()),
        (Platform::Linux, linux_paths()),
        (Platform::Linux, homeless(linux_paths())),
        (Platform::MacOs, macos_paths()),
    ] {
        let mut host = host();
        host.no_tools = true;
        assert_eq!(drive(&mut host, ServiceCommands::Stop, platform, exe(), paths), Ok(()));
        assert_eq!(host.printed, vec!["✅ Service stopped"]);
        assert_eq!(host.asked.len(), 2);
    }
}

#[test]
fn windows_stop_ends_the_task_and_every_daemon_process() {
    let mut host = host();
    host.task = true;
    host.processes = 3;
    assert_eq!(drive(&mut host, ServiceCommands::Stop, Platform::Windows, exe(), windows_paths()), Ok(()));
    assert_eq!(host.processes, 0);
    assert_eq!(
        programs(&host),
        vec![
            "schtasks /End /TN ZeroClaw Daemon",
            "powershell -NoProfile -Command Get-CimInstance Win32_Process | Where-Object { $_.Name -eq 'zeroclaw.exe' -and $_.CommandLine -match ' daemon(\\s|$)' } | ForEach-Object { Stop-Process -Id $_.ProcessId -Force }",
        ]
    );
}

#[test]
fn windows_uninstall_removes_task_run_key_and_wrapper() {
    let paths = windows_paths();
    let mut host = host();
    host.task = true;
    host.run_key = true;
    host.processes = 1;
    host.files.insert(paths.wrapper.clone(), "script".to_string());
    assert_eq!(drive(&mut host, ServiceCommands::Uninstall, Platform::Windows, exe(), paths.clone()), Ok(()));
    assert!(!host.task && !host.run_key && host.processes == 0);
    assert!(host.files.is_empty());
    assert_eq!(host.printed, vec!["✅ Service stopped", "✅ Service uninstalled"]);
    assert_eq!(host.asked.len(), 6);
}

#[test]
fn windows_uninstall_succeeds_where_nothing_is_installed_or_can_be_deleted() {
    let paths = windows_paths();
    let mut host = host();
    assert_eq!(drive(&mut host, ServiceCommands::Uninstall, Platform::Windows, exe(), paths.clone()), Ok(()));
    assert_eq!(host.asked.len(), 5);

    let mut host = self::host();
    host.read_only = true;
    host.no_tools = true;
    host.files.insert(paths.wrapper.clone(), "script".to_string());
    assert_eq!(drive(&mut host, ServiceCommands::Uninstall, Platform::Windows, exe(), paths.clone()), Ok(()));
    assert_eq!(host.printed, vec!["✅ Service stopped", "✅ Service uninstalled"]);
    assert!(host.files.contains_key(&paths.wrapper));
}

#[test]
fn macos_install_writes_the_plist_and_creates_both_directories() {
    let mut host = host();
    let paths = macos_paths();
    let exe = Ok("/opt/zero claw/zeroclaw".to_string());
    assert_eq!(drive(&mut host, ServiceCommands::Install, Platform::MacOs, exe, paths.clone()), Ok(()));
    assert_eq!(
        host.dirs,
        vec!["/Users/alice/Library/LaunchAgents".to_string(), "/home/alice/.zeroclaw/logs".to_string()]
    );
    let plist = host.files.get("/Users/alice/Library/LaunchAgents/com.zeroclaw.daemon.plist").unwrap();
    assert!(plist.contains("<string>com.zeroclaw.daemon</string>"));
    assert!(plist.contains("<string>/opt/zero claw/zeroclaw</string>\n    <string>daemon</string>"));
    assert!(plist.contains("<key>RunAtLoad</key>\n  <true/>"));
    assert!(plist.contains("<key>KeepAlive</key>\n  <true/>"));
    assert!(plist.contains("<string>/home/alice/.zeroclaw/logs/daemon.stdout.log</string>"));
    assert!(plist.contains("<string>/home/alice/.zeroclaw/logs/daemon.stderr.log</string>"));
    assert_eq!(
        host.printed,
        vec![
            "✅ Installed launchd service: /Users/alice/Library/LaunchAgents/com.zeroclaw.daemon.plist",
            "   Start with: zeroclaw service start",
        ]
    );
    assert!(programs(&host).is_empty());
}

#[test]
fn macos_commands_fail_without_a_home_directory() {
    for command in [
        ServiceCommands::Install,
        ServiceCommands::Start,
        ServiceCommands::Stop,
        ServiceCommands::Uninstall,
    ] {
        let mut host = host();
        let result = drive(&mut host, command, Platform::MacOs, exe(), homeless(macos_paths()));
        assert_eq!(result, Err(ServiceError::new("Could not find home directory")));
        assert!(host.asked.is_empty());
        assert!(host.printed.is_empty());
    }
    let mut host = host();
    let result = drive(&mut host, ServiceCommands::Status, Platform::MacOs, exe(), homeless(macos_paths()));
    assert_eq!(result, Err(ServiceError::new("Could not find home directory")));
    assert_eq!(host.printed, vec!["Service: ❌ not loaded"]);
}

#[test]
fn macos_install_fails_on_each_required_step() {
    let missing: Result<String, String> = Err("gone".to_string());
    let mut host = host();
    let result = drive(&mut host, ServiceCommands::Install, Platform::MacOs, missing, macos_paths());
    assert_eq!(
        result,
        Err(ServiceError::caused_by("Failed to resolve current executable", "gone"))
    );
    assert_eq!(host.dirs.len(), 1);

    let mut host = self::host();
    host.read_only = true;
    let result = drive(&mut host, ServiceCommands::Install, Platform::MacOs, exe(), macos_paths());
    assert_eq!(result, Err(ServiceError::new("Read-only file system (os error 30)")));
}

#[test]
fn macos_start_needs_both_steps_to_succeed() {
    let mut host = host();
    let result = drive(&mut host, ServiceCommands::Start, Platform::MacOs, exe(), macos_paths());
    assert_eq!(
        result,
        Err(ServiceError::new("Command failed: Load failed: 5: Input/output error"))
    );
    assert_eq!(
        programs(&host),
        vec!["launchctl load -w /Users/alice/Library/LaunchAgents/com.zeroclaw.daemon.plist"]
    );

    let mut host = self::host();
    host.files.insert(macos_paths().service.unwrap().file, "plist".to_string());
    assert_eq!(drive(&mut host, ServiceCommands::Start, Platform::MacOs, exe(), macos_paths()), Ok(()));
    assert_eq!(
        programs(&host),
        vec![
            "launchctl load -w /Users/alice/Library/LaunchAgents/com.zeroclaw.daemon.plist",
            "launchctl start com.zeroclaw.daemon",
        ]
    );
    assert_eq!(host.printed, vec!["✅ Service started"]);

    host.printed.clear();
    assert_eq!(drive(&mut host, ServiceCommands::Status, Platform::MacOs, exe(), macos_paths()), Ok(()));
    assert_eq!(host.printed[0], "Service: ✅ running/loaded");
}

#[test]
fn required_commands_fail_where_the_tool_cannot_be_started() {
    let mut host = host();
    host.no_tools = true;
    let result = drive(&mut host, ServiceCommands::Start, Platform::MacOs, exe(), macos_paths());
    assert_eq!(
        result,
        Err(ServiceError::caused_by(
            "Failed to spawn command",
            "No such file or directory (os error 2)"
        ))
    );
    assert_eq!(host.asked.len(), 1);

    let mut host = self::host();
    host.no_tools = true;
    let result = drive(&mut host, ServiceCommands::Status, Platform::MacOs, exe(), macos_paths());
    assert_eq!(result.unwrap_err().to_string(), "Failed to spawn command");
    assert!(host.printed.is_empty());

    let mut host = self::host();
    host.no_tools = true;
    let result = drive(&mut host, ServiceCommands::Start, Platform::Linux, exe(), linux_paths());
    assert_eq!(result.unwrap_err().report(), "Failed to spawn command: No such file or directory (os error 2)");
    assert_eq!(host.asked.len(), 2);

    let mut host = self::host();
    host.no_tools = true;
    let result = drive(&mut host, ServiceCommands::Install, Platform::Windows, exe(), windows_paths());
    assert_eq!(result.unwrap_err().to_string(), "Failed to spawn command");
    assert_eq!(host.asked.len(), 5);
    assert!(host.files.contains_key("C:\\zc\\logs\\zeroclaw-daemon.cmd"));
}

#[test]
fn every_request_says_what_is_needed_of_it() {
    let (mut session, turn) =
        Session::begin(ServiceCommands::Install, Platform::Linux, exe(), linux_paths());
    let mut needs = Vec::new();
    let mut step = turn.step;
    while let Step::Ask { need, .. } = step {
        needs.push(need);
        step = session.resume(if needs.len() <= 2 { Reply::Done } else { exited(false, "", "no bus") }).step;
    }
    assert_eq!(step, Step::Finish(Ok(())));
    assert_eq!(
        needs,
        vec![Need::MustSucceed, Need::MustSucceed, Need::Attempt, Need::Attempt]
    );

    let (mut session, turn) =
        Session::begin(ServiceCommands::Uninstall, Platform::Windows, exe(), windows_paths());
    let mut needs = Vec::new();
    let mut step = turn.step;
    while let Step::Ask { need, .. } = step {
        needs.push(need);
        step = session.resume(Reply::Exists(true)).step;
    }
    assert_eq!(step, Step::Finish(Ok(())));
    assert_eq!(
        needs,
        vec![
            Need::Attempt,
            Need::Attempt,
            Need::Attempt,
            Need::Attempt,
            Need::Inquiry,
            Need::Attempt
        ]
    );
}

#[test]
fn macos_stop_stops_the_label_then_unloads_the_plist() {
    let mut host = host();
    host.loaded = true;
    assert_eq!(drive(&mut host, ServiceCommands::Stop, Platform::MacOs, exe(), macos_paths()), Ok(()));
    assert_eq!(
        programs(&host),
        vec![
            "launchctl stop com.zeroclaw.daemon",
            "launchctl unload -w /Users/alice/Library/LaunchAgents/com.zeroclaw.daemon.plist",
        ]
    );
}

#[test]
fn macos_uninstall_deletes_the_plist_if_it_is_there() {
    let file = macos_paths().service.unwrap().file;
    let mut host = host();
    host.files.insert(file.clone(), "plist".to_string());
    assert_eq!(drive(&mut host, ServiceCommands::Uninstall, Platform::MacOs, exe(), macos_paths()), Ok(()));
    assert!(host.files.is_empty());
    assert_eq!(
        host.printed,
        vec![
            "✅ Service stopped".to_string(),
            format!("✅ Service uninstalled ({})", file),
        ]
    );

    let mut host = self::host();
    assert_eq!(drive(&mut host, ServiceCommands::Uninstall, Platform::MacOs, exe(), macos_paths()), Ok(()));
    assert_eq!(host.asked.len(), 3);
    assert_eq!(host.printed.len(), 2);
}

#[test]
fn uninstall_fails_where_the_definition_cannot_be_deleted() {
    for (platform, paths) in [(Platform::MacOs, macos_paths()), (Platform::Linux, linux_paths())] {
        let file = paths.service.clone().unwrap().file;
        let mut host = host();
        host.files.insert(file.clone(), "definition".to_string());
        host.read_only = true;
        let result = drive(&mut host, ServiceCommands::Uninstall, platform, exe(), paths);
        assert_eq!(
            result,
            Err(ServiceError::caused_by(
                &format!("Failed to remove {}", file),
                "Read-only file system (os error 30)"
            ))
        );
        assert_eq!(host.printed, vec!["✅ Service stopped"]);
    }
}

#[test]
fn linux_install_writes_the_unit_then_reloads_and_enables() {
    let mut host = host();
    host.no_tools = true;
    let exe = Ok("/usr/local/bin/zeroclaw".to_string());
    assert_eq!(drive(&mut host, ServiceCommands::Install, Platform::Linux, exe, linux_paths()), Ok(()));
    assert_eq!(host.dirs, vec!["/home/alice/.config/systemd/user".to_string()]);
    let unit = host.files.get("/home/alice/.config/systemd/user/zeroclaw.service").unwrap();
    assert!(unit.contains("ExecStart=/usr/local/bin/zeroclaw daemon\n"));
    assert!(unit.contains("Restart=always\nRestartSec=3\n"));
    assert_eq!(
        programs(&host),
        vec!["systemctl --user daemon-reload", "systemctl --user enable zeroclaw.service"]
    );
    assert_eq!(
        host.printed,
        vec![
            "✅ Installed systemd user service: /home/alice/.config/systemd/user/zeroclaw.service",
            "   Start with: zeroclaw service start",
        ]
    );
}

#[test]
fn linux_install_fails_on_each_required_step() {
    let mut host = host();
    let result = drive(&mut host, ServiceCommands::Install, Platform::Linux, exe(), homeless(linux_paths()));
    assert_eq!(result, Err(ServiceError::new("Could not find home directory")));

    let mut host = self::host();
    let result = drive(&mut host, ServiceCommands::Install, Platform::Linux, Err("gone".to_string()), linux_paths());
    assert_eq!(
        result,
        Err(ServiceError::caused_by("Failed to resolve current executable", "gone"))
    );

    let mut host = self::host();
    host.read_only = true;
    let result = drive(&mut host, ServiceCommands::Install, Platform::Linux, exe(), linux_paths());
    assert_eq!(result, Err(ServiceError::new("Read-only file system (os error 30)")));
}

#[test]
fn linux_start_fails_only_if_the_unit_does_not_start() {
    let mut host = host();
    let result = drive(&mut host, ServiceCommands::Start, Platform::Linux, exe(), linux_paths());
    assert_eq!(
        result,
        Err(ServiceError::new(
            "Command failed: Failed to start zeroclaw.service: Unit zeroclaw.service not found."
        ))
    );
    assert_eq!(
        programs(&host),
        vec!["systemctl --user daemon-reload", "systemctl --user start zeroclaw.service"]
    );

    let mut host = self::host();
    host.files.insert(linux_paths().service.unwrap().file, "unit".to_string());
    assert_eq!(drive(&mut host, ServiceCommands::Start, Platform::Linux, exe(), linux_paths()), Ok(()));
    assert_eq!(host.printed, vec!["✅ Service started"]);
    host.printed.clear();
    assert_eq!(drive(&mut host, ServiceCommands::Status, Platform::Linux, exe(), linux_paths()), Ok(()));
    assert_eq!(host.printed[0], "Service state: active");
}

#[test]
fn linux_status_is_unknown_where_systemd_cannot_be_asked() {
    let mut host = host();
    host.no_tools = true;
    assert_eq!(drive(&mut host, ServiceCommands::Status, Platform::Linux, exe(), linux_paths()), Ok(()));
    assert_eq!(
        host.printed,
        vec!["Service state: unknown", "Unit: /home/alice/.config/systemd/user/zeroclaw.service"]
    );

    let mut host = self::host();
    let result = drive(&mut host, ServiceCommands::Status, Platform::Linux, exe(), homeless(linux_paths()));
    assert_eq!(result, Err(ServiceError::new("Could not find home directory")));
    assert_eq!(host.printed, vec!["Service state: inactive"]);
}

#[test]
fn linux_uninstall_deletes_the_unit_and_reloads() {
    let file = linux_paths().service.unwrap().file;
    let mut host = host();
    host.files.insert(file.clone(), "unit".to_string());
    assert_eq!(drive(&mut host, ServiceCommands::Uninstall, Platform::Linux, exe(), linux_paths()), Ok(()));
    assert!(host.files.is_empty());
    assert_eq!(programs(&host).last().unwrap(), "systemctl --user daemon-reload");
    assert_eq!(host.asked.len(), 5);
    assert_eq!(
        host.printed,
        vec!["✅ Service stopped".to_string(), format!("✅ Service uninstalled ({})", file)]
    );

    let mut host = self::host();
    let result = drive(&mut host, ServiceCommands::Uninstall, Platform::Linux, exe(), homeless(linux_paths()));
    assert_eq!(result, Err(ServiceError::new("Could not find home directory")));
    assert_eq!(host.printed, vec!["✅ Service stopped"]);
}

#[test]
fn every_command_fails_alike_on_an_unsupported_platform() {
    for command in [
        ServiceCommands::Install,
        ServiceCommands::Start,
        ServiceCommands::Stop,
        ServiceCommands::Status,
        ServiceCommands::Uninstall,
    ] {
        let mut host = host();
        let result = drive(&mut host, command, Platform::Unsupported, exe(), windows_paths());
        assert_eq!(result, Err(ServiceError::new(UNSUPPORTED)));
        assert!(host.asked.is_empty());
        assert!(host.printed.is_empty());
    }
}

#[test]
fn access_denied_is_found_in_any_case_and_in_spanish() {
    assert!(is_access_denied("Command failed: ERROR: Access is denied."));
    assert!(is_access_denied("ACCESS IS DENIED"));
    assert!(is_access_denied("Error: Acceso denegado."));
    assert!(is_access_denied("error: permiso DENEGADO"));
    assert!(!is_access_denied("Command failed: ERROR: The task XML is malformed."));
    assert!(!is_access_denied("access denied"));
    assert!(!is_access_denied(""));
}

#[test]
fn daemon_count_above_zero_means_running() {
    assert_eq!(windows_daemon_running(&exited(true, "2\r\n", "")), Ok(true));
    assert_eq!(windows_daemon_running(&exited(true, "0\r\n", "")), Ok(false));
    assert_eq!(windows_daemon_running(&exited(true, "", "")), Ok(false));
    assert_eq!(windows_daemon_running(&exited(true, "many", "")), Ok(false));
    assert_eq!(windows_daemon_running(&exited(false, "", " 1 ")), Ok(true));
    assert_eq!(
        windows_daemon_running(&Reply::NotStarted("missing".to_string())),
        Err(ServiceError::caused_by("Failed to spawn command", "missing"))
    );
    assert!(windows_run_key_exists(&exited(true, "", "")));
    assert!(!windows_run_key_exists(&exited(false, "", "")));
}

#[test]
fn linux_service_file_has_expected_suffix() {
    let file = linux_service_file(&Config::default()).unwrap();
    let path = file.as_str();
    assert!(path.ends_with(".config/systemd/user/zeroclaw.service"));
}

#[test]
fn locations_lie_beside_the_configuration_file() {
    let config = Config { config_path: "/home/alice/.zeroclaw/config.toml".to_string() };
    assert_eq!(windows_wrapper_path(&config), "/home/alice/.zeroclaw/logs/zeroclaw-daemon.cmd");
    let paths = platform_paths(Platform::Linux, &config, Some("/home/alice".to_string()));
    assert_eq!(paths, linux_paths());
    let paths = platform_paths(Platform::MacOs, &config, Some("/Users/alice".to_string()));
    assert_eq!(paths, macos_paths());
    let paths = platform_paths(Platform::Windows, &config, Some("/home/alice".to_string()));
    assert_eq!(paths, homeless(linux_paths()));
    let paths = platform_paths(Platform::Linux, &config, None);
    assert_eq!(paths.service, None);

    let bare = Config { config_path: "config.toml".to_string() };
    assert_eq!(windows_wrapper_path(&bare), "logs/zeroclaw-daemon.cmd");
    let rootless = Config { config_path: "".to_string() };
    assert_eq!(windows_wrapper_path(&rootless), "./logs/zeroclaw-daemon.cmd");
}

#[test]
fn handle_command_opens_the_session_of_the_command() {
    let config = Config { config_path: "/etc/zeroclaw/config.toml".to_string() };
    let (session, turn) = handle_command(&ServiceCommands::Stop, &config, Platform::Windows, exe());
    assert_eq!(session.command, ServiceCommands::Stop);
    assert_eq!(session.platform, Platform::Windows);
    assert_eq!(session.paths.wrapper, "/etc/zeroclaw/logs/zeroclaw-daemon.cmd");
    assert_eq!(session.paths.state_file, "/etc/zeroclaw/daemon_state.json");
    assert!(session.replies.is_empty());
    assert!(turn.lines.is_empty());
    assert_eq!(
        turn.step,
        Step::Ask {
            request: Request::run("schtasks", &["/End", "/TN", "ZeroClaw Daemon"]),
            need: Need::Attempt,
        }
    );
    assert_eq!(session.turn(), turn);

    let (_, turn) = handle_command(&ServiceCommands::Status, &config, Platform::Unsupported, exe());
    assert!(turn.is_finished());
    assert_eq!(turn.step, Step::Finish(Err(ServiceError::new(UNSUPPORTED))));
}
