//! The Windows strategy: a scheduled task, with the registry's `Run` key and
//! the supervisor wrapper to fall back on.
//!
//! Windows has no per-user service that restarts what has died. So every
//! installation writes the supervisor wrapper, and then registers it to be
//! started at logon: as a scheduled task where one can be created, under the
//! `Run` key where none can.
use vstd::prelude::*;
use crate::service::dialogue::{
    attempt, fail, inquire, must, no_lines, one_line, owned_texts, run_request, say_and_ask,
    succeed, ErrorView, Need, Reply, ReplyView, Request, RequestView, ServiceError, Turn, TurnView,
};
use crate::service::locations::{exe_error, exe_view, PathsView, PlatformPaths};
use crate::service::runner::{
    captured, checked, command_succeeded, exited_ok, found, io_outcome, io_result, path_found,
    run_capture, run_checked,
};
use crate::service::supervisor::{build_windows_supervisor_wrapper, supervisor_wrapper};
use crate::text::{
    ascii_lower, concat2, concat3, contains, has_substring, parse_u32, parsed_u32, texts,
    to_ascii_lowercase, trim, trimmed,
};

verus! {

/// The name of the scheduled task.
pub open spec fn task_name() -> Seq<char> {
    "ZeroClaw Daemon"@
}

/// The name of the value under the `Run` key.
pub open spec fn run_value() -> Seq<char> {
    "ZeroClawDaemon"@
}

/// The registry key whose values are started at logon.
pub open spec fn run_key() -> Seq<char> {
    "HKCU\\Software\\Microsoft\\Windows\\CurrentVersion\\Run"@
}

/// `text` between double quotes.
pub open spec fn quoted(text: Seq<char>) -> Seq<char> {
    "\""@ + text + "\""@
}

/// The command line that lists the running daemons.
pub open spec fn daemon_processes() -> Seq<char> {
    "Get-CimInstance Win32_Process | Where-Object { $_.Name -eq 'zeroclaw.exe' -and $_.CommandLine -match ' daemon(\\s|$)' }"@
}

/// Deletes the task, without asking back.
pub open spec fn delete_task_request() -> RequestView {
    run_request("schtasks"@, seq!["/Delete"@, "/TN"@, task_name(), "/F"@])
}

/// Creates the task that runs the wrapper at logon, at the run level `level`.
pub open spec fn create_task_request(wrapper: Seq<char>, level: Seq<char>) -> RequestView {
    run_request(
        "schtasks"@,
        seq![
            "/Create"@,
            "/TN"@,
            task_name(),
            "/SC"@,
            "ONLOGON"@,
            "/TR"@,
            quoted(wrapper),
            "/RL"@,
            level,
            "/F"@,
        ],
    )
}

/// Runs the task now.
pub open spec fn run_task_request() -> RequestView {
    run_request("schtasks"@, seq!["/Run"@, "/TN"@, task_name()])
}

/// Ends the running task.
pub open spec fn end_task_request() -> RequestView {
    run_request("schtasks"@, seq!["/End"@, "/TN"@, task_name()])
}

/// Asks for the state of the task, as a list.
pub open spec fn query_task_request() -> RequestView {
    run_request("schtasks"@, seq!["/Query"@, "/TN"@, task_name(), "/FO"@, "LIST"@])
}

/// Points the `Run` key at the wrapper.
pub open spec fn add_run_key_request(wrapper: Seq<char>) -> RequestView {
    run_request(
        "reg"@,
        seq![
            "ADD"@,
            run_key(),
            "/V"@,
            run_value(),
            "/T"@,
            "REG_SZ"@,
            "/D"@,
            quoted(wrapper),
            "/F"@,
        ],
    )
}

/// Removes the startup entry, without asking back.
pub open spec fn delete_run_key_request() -> RequestView {
    run_request("reg"@, seq!["DELETE"@, run_key(), "/V"@, run_value(), "/F"@])
}

/// Looks for the startup entry.
pub open spec fn query_run_key_request() -> RequestView {
    run_request("reg"@, seq!["QUERY"@, run_key(), "/V"@, run_value()])
}

/// Starts the wrapper in a minimized window of its own.
pub open spec fn start_wrapper_request(wrapper: Seq<char>) -> RequestView {
    run_request("cmd"@, seq!["/C"@, "start"@, quoted(task_name()), "/MIN"@, wrapper])
}

/// Ends every running daemon.
pub open spec fn stop_processes_request() -> RequestView {
    run_request(
        "powershell"@,
        seq![
            "-NoProfile"@,
            "-Command"@,
            daemon_processes() + " | ForEach-Object { Stop-Process -Id $_.ProcessId -Force }"@,
        ],
    )
}

/// Counts the running daemons.
pub open spec fn count_processes_request() -> RequestView {
    run_request(
        "powershell"@,
        seq!["-NoProfile"@, "-Command"@, "(@("@ + daemon_processes() + ")).Count"@],
    )
}

/// Whether `message` says that a privilege was missing, in English or in
/// Spanish, in capitals or not.
pub open spec fn access_denied(message: Seq<char>) -> bool {
    let lower = ascii_lower(message);
    has_substring(lower, "access is denied"@) || has_substring(lower, "acceso denegado"@)
        || has_substring(lower, "permiso denegado"@)
}

/// Whether `text` writes a number above zero.
pub open spec fn positive_count(text: Seq<char>) -> bool {
    parsed_u32(text) matches Some(n) && n > 0
}

/// Whether the count of processes in `reply` shows a running daemon. A count
/// that cannot be had or read shows none.
pub open spec fn daemon_running(reply: ReplyView) -> bool {
    captured(reply) matches Ok(out) && positive_count(trimmed(out))
}

/// The standard output of the command in `reply`.
pub open spec fn stdout_of(reply: ReplyView) -> Seq<char> {
    match reply {
        ReplyView::Exited(output) => output.stdout,
        _ => Seq::empty(),
    }
}

/// What every installation reports, whatever starts the wrapper.
pub open spec fn installed_lines(paths: PathsView) -> Seq<Seq<char>> {
    seq![
        "   Wrapper: "@ + paths.wrapper,
        "   Logs: "@ + paths.logs_dir,
        "   Restart policy: always (supervisor loop, 5s delay)"@,
    ]
}

/// The report of an installation as a scheduled task.
pub open spec fn task_installed_lines(paths: PathsView) -> Seq<Seq<char>> {
    seq!["✅ Installed Windows scheduled task: "@ + task_name()] + installed_lines(paths)
        + seq!["   Start with: zeroclaw service start"@]
}

/// The report of an installation under the `Run` key, after the scheduled task
/// failed with `task_error`.
pub open spec fn run_key_installed_lines(paths: PathsView, task_error: Seq<char>) -> Seq<
    Seq<char>,
> {
    seq!["✅ Installed Windows startup registry entry: HKCU\\...\\Run\\"@ + run_value()]
        + installed_lines(paths) + seq![
        "   Note: scheduled task unavailable ("@ + task_error + ")"@,
        "   Start with: zeroclaw service start"@,
    ]
}

/// The lines that name the startup entry and the wrapper.
pub open spec fn startup_entry_lines(paths: PathsView) -> Seq<Seq<char>> {
    seq!["Startup entry: HKCU\\...\\Run\\"@ + run_value(), "Wrapper: "@ + paths.wrapper]
}

/// The status of an installation whose task could be queried: the daemon
/// counts as running if the task says so or if a process of it is found.
pub open spec fn task_status_lines(task_running: bool, process_running: bool) -> Seq<Seq<char>> {
    seq![
        if task_running || process_running {
            "Service: ✅ running"@
        } else {
            "Service: ❌ not running"@
        },
        "Mode: "@ + if task_running {
            "scheduled-task mode"@
        } else if process_running {
            "startup-registry mode"@
        } else {
            "stopped"@
        },
        "Task: "@ + task_name(),
    ]
}

/// The verdict of `task_status_lines` is the logical or of the two signals: the
/// daemon is reported as running if and only if the task is running or a
/// process of it was found, and as stopped if and only if neither is the case.
pub proof fn lemma_task_status_verdict(task_running: bool, process_running: bool)
    ensures
        task_status_lines(task_running, process_running).len() == 3,
        task_status_lines(task_running, process_running)[0] == "Service: ✅ running"@ <==> (
        task_running || process_running),
        task_status_lines(task_running, process_running)[1] == "Mode: "@ + "stopped"@ <==> !(
        task_running || process_running),
{
    reveal_strlit("Service: ✅ running");
    reveal_strlit("Service: ❌ not running");
    reveal_strlit("scheduled-task mode");
    reveal_strlit("startup-registry mode");
    reveal_strlit("stopped");
    let prefix = "Mode: "@;
    assert("Service: ✅ running"@.len() != "Service: ❌ not running"@.len());
    assert((prefix + "startup-registry mode"@).len() != (prefix + "stopped"@).len());
}

/// The status of an installation that has a startup entry and no task.
pub open spec fn run_key_status_lines(paths: PathsView, process_running: bool) -> Seq<Seq<char>> {
    seq![
        if process_running {
            "Service: ✅ running (startup-registry mode)"@
        } else {
            "Service: ❌ not running (startup-registry mode)"@
        },
    ] + startup_entry_lines(paths)
}

/// The end of an installation for which no task could be created: the wrapper
/// is registered under the `Run` key, which must succeed. `at` is the number of
/// replies that came before.
pub open spec fn run_key_fallback_plan(
    paths: PathsView,
    task_error: ErrorView,
    r: Seq<ReplyView>,
    at: int,
) -> TurnView {
    if r.len() <= at {
        must(add_run_key_request(paths.wrapper))
    } else {
        match checked(r[at]) {
            Ok(_) => succeed(run_key_installed_lines(paths, task_error.message)),
            Err(e) => fail(e),
        }
    }
}

/// Installation: write the wrapper; remove a task left from before; create the
/// task with the highest run level; if that is refused for want of privilege,
/// create it with the limited one; if no task can be had, whatever the reason,
/// register the wrapper under the `Run` key.
pub open spec fn install_windows_plan(
    exe: Result<Seq<char>, Seq<char>>,
    paths: PathsView,
    r: Seq<ReplyView>,
) -> TurnView {
    match exe {
        Err(cause) => fail(exe_error(cause)),
        Ok(exe_path) => {
            if r.len() == 0 {
                must(RequestView::CreateDirAll { path: paths.logs_dir })
            } else if let Err(e) = io_outcome(r[0]) {
                fail(e)
            } else if r.len() == 1 {
                must(
                    RequestView::WriteFile {
                        path: paths.wrapper,
                        content: supervisor_wrapper(
                            exe_path,
                            paths.state_file,
                            paths.stdout_log,
                            paths.stderr_log,
                            paths.supervisor_log,
                        ),
                    },
                )
            } else if let Err(e) = io_outcome(r[1]) {
                fail(e)
            } else if r.len() == 2 {
                attempt(delete_task_request())
            } else if r.len() == 3 {
                inquire(create_task_request(paths.wrapper, "HIGHEST"@))
            } else {
                match checked(r[3]) {
                    Ok(_) => succeed(task_installed_lines(paths)),
                    Err(first) => if access_denied(first.message) {
                        if r.len() == 4 {
                            inquire(create_task_request(paths.wrapper, "LIMITED"@))
                        } else {
                            match checked(r[4]) {
                                Ok(_) => succeed(task_installed_lines(paths)),
                                Err(second) => run_key_fallback_plan(paths, second, r, 5),
                            }
                        }
                    } else {
                        run_key_fallback_plan(paths, first, r, 4)
                    },
                }
            }
        },
    }
}

/// Start: run the task; if that fails and there is a startup entry, start the
/// wrapper directly; if there is none, fail as the task did.
pub open spec fn start_windows_plan(paths: PathsView, r: Seq<ReplyView>) -> TurnView {
    if r.len() == 0 {
        inquire(run_task_request())
    } else {
        match checked(r[0]) {
            Ok(_) => succeed(seq!["✅ Service started"@]),
            Err(task_error) => if r.len() == 1 {
                inquire(query_run_key_request())
            } else if !exited_ok(r[1]) {
                fail(task_error)
            } else if r.len() == 2 {
                must(start_wrapper_request(paths.wrapper))
            } else {
                match checked(r[2]) {
                    Ok(_) => succeed(seq!["✅ Service started (startup-registry mode)"@]),
                    Err(e) => fail(e),
                }
            },
        }
    }
}

/// Stop: end the task, then end every daemon process, so that a wrapper that
/// was started on its own does not bring the daemon back. Neither step can fail
/// the command.
pub open spec fn stop_windows_plan(r: Seq<ReplyView>) -> TurnView {
    if r.len() == 0 {
        attempt(end_task_request())
    } else if r.len() == 1 {
        attempt(stop_processes_request())
    } else {
        succeed(seq!["✅ Service stopped"@])
    }
}

/// Status: where the task can be queried, the daemon runs if the task says
/// `Running` or a process of it is found; where it cannot, the startup entry
/// and the processes decide.
pub open spec fn status_windows_plan(paths: PathsView, r: Seq<ReplyView>) -> TurnView {
    if r.len() == 0 {
        inquire(query_task_request())
    } else if exited_ok(r[0]) {
        if r.len() == 1 {
            inquire(count_processes_request())
        } else if r.len() == 2 {
            say_and_ask(
                task_status_lines(has_substring(stdout_of(r[0]), "Running"@), daemon_running(r[1])),
                query_run_key_request(),
                Need::Inquiry,
            )
        } else if exited_ok(r[2]) {
            succeed(startup_entry_lines(paths))
        } else {
            succeed(Seq::empty())
        }
    } else {
        if r.len() == 1 {
            inquire(query_run_key_request())
        } else if !exited_ok(r[1]) {
            succeed(seq!["Service: ❌ not installed"@])
        } else if r.len() == 2 {
            inquire(count_processes_request())
        } else {
            succeed(run_key_status_lines(paths, daemon_running(r[2])))
        }
    }
}

/// Uninstall: stop; then delete the task, the startup entry and the wrapper,
/// none of which can fail the command.
pub open spec fn uninstall_windows_plan(paths: PathsView, r: Seq<ReplyView>) -> TurnView {
    if r.len() < 2 {
        stop_windows_plan(r)
    } else if r.len() == 2 {
        say_and_ask(seq!["✅ Service stopped"@], delete_task_request(), Need::Attempt)
    } else if r.len() == 3 {
        attempt(delete_run_key_request())
    } else if r.len() == 4 {
        inquire(RequestView::PathExists { path: paths.wrapper })
    } else if r.len() == 5 && found(r[4]) {
        attempt(RequestView::RemoveFile { path: paths.wrapper })
    } else {
        succeed(seq!["✅ Service uninstalled"@])
    }
}

/// The name of the scheduled task.
pub fn windows_task_name() -> (name: &'static str)
    ensures
        name@ == task_name(),
{
    "ZeroClaw Daemon"
}

/// The name of the value under the `Run` key.
pub fn windows_run_reg_value() -> (name: &'static str)
    ensures
        name@ == run_value(),
{
    "ZeroClawDaemon"
}

fn quote(text: &str) -> (q: String)
    ensures
        q@ == quoted(text@),
{
    let mut q = String::from_str("\"");
    q.append(text);
    q.append("\"");
    q
}

fn delete_task() -> (request: Request)
    ensures
        request@ == delete_task_request(),
{
    let args = ["/Delete", "/TN", windows_task_name(), "/F"];
    proof {
        assert(texts(args@) =~= seq!["/Delete"@, "/TN"@, task_name(), "/F"@]);
    }
    Request::run("schtasks", &args)
}

fn create_task(wrapper: &str, level: &str) -> (request: Request)
    ensures
        request@ == create_task_request(wrapper@, level@),
{
    let command = quote(wrapper);
    let args = [
        "/Create",
        "/TN",
        windows_task_name(),
        "/SC",
        "ONLOGON",
        "/TR",
        command.as_str(),
        "/RL",
        level,
        "/F",
    ];
    proof {
        assert(texts(args@) =~= seq![
            "/Create"@,
            "/TN"@,
            task_name(),
            "/SC"@,
            "ONLOGON"@,
            "/TR"@,
            quoted(wrapper@),
            "/RL"@,
            level@,
            "/F"@,
        ]);
    }
    Request::run("schtasks", &args)
}

fn run_task() -> (request: Request)
    ensures
        request@ == run_task_request(),
{
    let args = ["/Run", "/TN", windows_task_name()];
    proof {
        assert(texts(args@) =~= seq!["/Run"@, "/TN"@, task_name()]);
    }
    Request::run("schtasks", &args)
}

fn end_task() -> (request: Request)
    ensures
        request@ == end_task_request(),
{
    let args = ["/End", "/TN", windows_task_name()];
    proof {
        assert(texts(args@) =~= seq!["/End"@, "/TN"@, task_name()]);
    }
    Request::run("schtasks", &args)
}

fn query_task() -> (request: Request)
    ensures
        request@ == query_task_request(),
{
    let args = ["/Query", "/TN", windows_task_name(), "/FO", "LIST"];
    proof {
        assert(texts(args@) =~= seq!["/Query"@, "/TN"@, task_name(), "/FO"@, "LIST"@]);
    }
    Request::run("schtasks", &args)
}

/// The request that registers `wrapper` under the `Run` key, to be started at
/// logon.
pub fn install_windows_run_key(wrapper: &str) -> (request: Request)
    ensures
        request@ == add_run_key_request(wrapper@),
{
    let command = quote(wrapper);
    let args = [
        "ADD",
        "HKCU\\Software\\Microsoft\\Windows\\CurrentVersion\\Run",
        "/V",
        windows_run_reg_value(),
        "/T",
        "REG_SZ",
        "/D",
        command.as_str(),
        "/F",
    ];
    proof {
        assert(texts(args@) =~= seq![
            "ADD"@,
            run_key(),
            "/V"@,
            run_value(),
            "/T"@,
            "REG_SZ"@,
            "/D"@,
            quoted(wrapper@),
            "/F"@,
        ]);
    }
    Request::run("reg", &args)
}

/// The request that removes the startup entry.
pub fn uninstall_windows_run_key() -> (request: Request)
    ensures
        request@ == delete_run_key_request(),
{
    let args = [
        "DELETE",
        "HKCU\\Software\\Microsoft\\Windows\\CurrentVersion\\Run",
        "/V",
        windows_run_reg_value(),
        "/F",
    ];
    proof {
        assert(texts(args@) =~= seq!["DELETE"@, run_key(), "/V"@, run_value(), "/F"@]);
    }
    Request::run("reg", &args)
}

/// The request that looks for the startup entry.
pub fn windows_run_key_query() -> (request: Request)
    ensures
        request@ == query_run_key_request(),
{
    let args = [
        "QUERY",
        "HKCU\\Software\\Microsoft\\Windows\\CurrentVersion\\Run",
        "/V",
        windows_run_reg_value(),
    ];
    proof {
        assert(texts(args@) =~= seq!["QUERY"@, run_key(), "/V"@, run_value()]);
    }
    Request::run("reg", &args)
}

/// Whether the reply to `windows_run_key_query` shows a startup entry: the
/// query ran and exited with status zero.
pub fn windows_run_key_exists(reply: &Reply) -> (exists: bool)
    ensures
        exists == exited_ok(reply@),
{
    command_succeeded(reply)
}

/// The request that starts `wrapper` detached, in a minimized window.
pub fn start_windows_wrapper_detached(wrapper: &str) -> (request: Request)
    ensures
        request@ == start_wrapper_request(wrapper@),
{
    let title = quote(windows_task_name());
    let args = ["/C", "start", title.as_str(), "/MIN", wrapper];
    proof {
        assert(texts(args@) =~= seq!["/C"@, "start"@, quoted(task_name()), "/MIN"@, wrapper@]);
    }
    Request::run("cmd", &args)
}

fn daemon_processes_filter() -> (filter: &'static str)
    ensures
        filter@ == daemon_processes(),
{
    "Get-CimInstance Win32_Process | Where-Object { $_.Name -eq 'zeroclaw.exe' -and $_.CommandLine -match ' daemon(\\s|$)' }"
}

/// The request that ends every process of the daemon: every `zeroclaw.exe`
/// whose command line holds the start argument.
pub fn stop_windows_daemon_processes() -> (request: Request)
    ensures
        request@ == stop_processes_request(),
{
    let script = concat2(
        daemon_processes_filter(),
        " | ForEach-Object { Stop-Process -Id $_.ProcessId -Force }",
    );
    let args = ["-NoProfile", "-Command", script.as_str()];
    proof {
        assert(texts(args@) =~= seq![
            "-NoProfile"@,
            "-Command"@,
            daemon_processes() + " | ForEach-Object { Stop-Process -Id $_.ProcessId -Force }"@,
        ]);
    }
    Request::run("powershell", &args)
}

/// The request that counts the processes of the daemon.
pub fn windows_daemon_query() -> (request: Request)
    ensures
        request@ == count_processes_request(),
{
    let script = concat3("(@(", daemon_processes_filter(), ")).Count");
    let args = ["-NoProfile", "-Command", script.as_str()];
    proof {
        assert(texts(args@) =~= seq![
            "-NoProfile"@,
            "-Command"@,
            "(@("@ + daemon_processes() + ")).Count"@,
        ]);
    }
    Request::run("powershell", &args)
}

/// Reads the reply to `windows_daemon_query`: whether the count is a number
/// above zero. A count that cannot be read as a number is zero; the only error
/// is a query that could not be started.
pub fn windows_daemon_running(reply: &Reply) -> (running: Result<bool, ServiceError>)
    ensures
        match captured(reply@) {
            Ok(out) => running == Ok::<bool, ServiceError>(positive_count(trimmed(out))),
            Err(e) => running is Err && running->Err_0@ == e,
        },
        (running matches Ok(yes) && yes) == daemon_running(reply@),
{
    match run_capture(reply) {
        Ok(out) => {
            let count = trim(out.as_str());
            match parse_u32(count.as_str()) {
                Some(n) => Ok(n > 0),
                None => Ok(false),
            }
        },
        Err(e) => Err(e),
    }
}

/// Whether `message` says that a privilege was missing.
pub fn is_access_denied(message: &str) -> (denied: bool)
    ensures
        denied == access_denied(message@),
{
    let lower = to_ascii_lowercase(message);
    contains(lower.as_str(), "access is denied") || contains(lower.as_str(), "acceso denegado")
        || contains(lower.as_str(), "permiso denegado")
}

fn task_installed_report(paths: &PlatformPaths) -> (lines: Vec<String>)
    ensures
        lines.deep_view() == task_installed_lines(paths@),
{
    let first = concat2("✅ Installed Windows scheduled task: ", windows_task_name());
    let wrapper = concat2("   Wrapper: ", paths.wrapper.as_str());
    let logs = concat2("   Logs: ", paths.logs_dir.as_str());
    let lines = [
        first.as_str(),
        wrapper.as_str(),
        logs.as_str(),
        "   Restart policy: always (supervisor loop, 5s delay)",
        "   Start with: zeroclaw service start",
    ];
    owned_texts(&lines)
}

fn run_key_installed_report(paths: &PlatformPaths, task_error: &ServiceError) -> (lines: Vec<
    String,
>)
    ensures
        lines.deep_view() == run_key_installed_lines(paths@, task_error@.message),
{
    let first = concat2(
        "✅ Installed Windows startup registry entry: HKCU\\...\\Run\\",
        windows_run_reg_value(),
    );
    let wrapper = concat2("   Wrapper: ", paths.wrapper.as_str());
    let logs = concat2("   Logs: ", paths.logs_dir.as_str());
    let note = concat3("   Note: scheduled task unavailable (", task_error.message.as_str(), ")");
    let lines = [
        first.as_str(),
        wrapper.as_str(),
        logs.as_str(),
        "   Restart policy: always (supervisor loop, 5s delay)",
        note.as_str(),
        "   Start with: zeroclaw service start",
    ];
    owned_texts(&lines)
}

fn startup_entry_report(paths: &PlatformPaths) -> (lines: Vec<String>)
    ensures
        lines.deep_view() == startup_entry_lines(paths@),
{
    let entry = concat2("Startup entry: HKCU\\...\\Run\\", windows_run_reg_value());
    let wrapper = concat2("Wrapper: ", paths.wrapper.as_str());
    let lines = [entry.as_str(), wrapper.as_str()];
    owned_texts(&lines)
}

/// What `status` reports where the task could be queried: the daemon is
/// running if the task is or if a process of it was found, and the mode tells
/// which of the two it was.
pub fn task_status_report(task_running: bool, process_running: bool) -> (lines: Vec<String>)
    ensures
        lines.deep_view() == task_status_lines(task_running, process_running),
{
    let service = if task_running || process_running {
        "Service: ✅ running"
    } else {
        "Service: ❌ not running"
    };
    let mode = concat2(
        "Mode: ",
        if task_running {
            "scheduled-task mode"
        } else if process_running {
            "startup-registry mode"
        } else {
            "stopped"
        },
    );
    let task = concat2("Task: ", windows_task_name());
    let lines = [service, mode.as_str(), task.as_str()];
    owned_texts(&lines)
}

fn run_key_status_report(paths: &PlatformPaths, process_running: bool) -> (lines: Vec<String>)
    ensures
        lines.deep_view() == run_key_status_lines(paths@, process_running),
{
    let service = if process_running {
        "Service: ✅ running (startup-registry mode)"
    } else {
        "Service: ❌ not running (startup-registry mode)"
    };
    let entry = concat2("Startup entry: HKCU\\...\\Run\\", windows_run_reg_value());
    let wrapper = concat2("Wrapper: ", paths.wrapper.as_str());
    let lines = [service, entry.as_str(), wrapper.as_str()];
    owned_texts(&lines)
}

fn run_key_fallback(
    paths: &PlatformPaths,
    task_error: &ServiceError,
    replies: &Vec<Reply>,
    at: usize,
) -> (turn: Turn)
    ensures
        turn@ == run_key_fallback_plan(paths@, task_error@, replies.deep_view(), at as int),
{
    if replies.len() <= at {
        return Turn::must(install_windows_run_key(paths.wrapper.as_str()));
    }
    match run_checked(&replies[at]) {
        Ok(_) => Turn::succeed(run_key_installed_report(paths, task_error)),
        Err(e) => Turn::fail(e),
    }
}

/// The next turn of an installation on Windows, after `replies`.
pub fn install_windows(
    exe: &Result<String, String>,
    paths: &PlatformPaths,
    replies: &Vec<Reply>,
) -> (turn: Turn)
    ensures
        turn@ == install_windows_plan(exe_view(*exe), paths@, replies.deep_view()),
{
    let exe_path = match exe {
        Ok(path) => path,
        Err(cause) => {
            return Turn::fail(
                ServiceError::caused_by("Failed to resolve current executable", cause.as_str()),
            );
        },
    };
    if replies.len() == 0 {
        return Turn::must(Request::create_dir_all(paths.logs_dir.as_str()));
    }
    match io_result(&replies[0]) {
        Err(e) => {
            return Turn::fail(e);
        },
        Ok(_) => {},
    }
    if replies.len() == 1 {
        let script = build_windows_supervisor_wrapper(
            exe_path.as_str(),
            paths.state_file.as_str(),
            paths.stdout_log.as_str(),
            paths.stderr_log.as_str(),
            paths.supervisor_log.as_str(),
        );
        return Turn::must(Request::write_file(paths.wrapper.as_str(), script));
    }
    match io_result(&replies[1]) {
        Err(e) => {
            return Turn::fail(e);
        },
        Ok(_) => {},
    }
    if replies.len() == 2 {
        return Turn::attempt(delete_task());
    }
    if replies.len() == 3 {
        return Turn::inquire(create_task(paths.wrapper.as_str(), "HIGHEST"));
    }
    match run_checked(&replies[3]) {
        Ok(_) => Turn::succeed(task_installed_report(paths)),
        Err(first) => {
            if is_access_denied(first.message.as_str()) {
                if replies.len() == 4 {
                    return Turn::inquire(create_task(paths.wrapper.as_str(), "LIMITED"));
                }
                match run_checked(&replies[4]) {
                    Ok(_) => Turn::succeed(task_installed_report(paths)),
                    Err(second) => run_key_fallback(paths, &second, replies, 5),
                }
            } else {
                run_key_fallback(paths, &first, replies, 4)
            }
        },
    }
}

/// The next turn of a start on Windows, after `replies`.
pub fn start_windows(paths: &PlatformPaths, replies: &Vec<Reply>) -> (turn: Turn)
    ensures
        turn@ == start_windows_plan(paths@, replies.deep_view()),
{
    if replies.len() == 0 {
        return Turn::inquire(run_task());
    }
    match run_checked(&replies[0]) {
        Ok(_) => Turn::succeed(one_line("✅ Service started")),
        Err(task_error) => {
            if replies.len() == 1 {
                return Turn::inquire(windows_run_key_query());
            }
            if !windows_run_key_exists(&replies[1]) {
                return Turn::fail(task_error);
            }
            if replies.len() == 2 {
                return Turn::must(start_windows_wrapper_detached(paths.wrapper.as_str()));
            }
            match run_checked(&replies[2]) {
                Ok(_) => Turn::succeed(one_line("✅ Service started (startup-registry mode)")),
                Err(e) => Turn::fail(e),
            }
        },
    }
}

/// The next turn of a stop on Windows, after `replies`.
pub fn stop_windows(replies: &Vec<Reply>) -> (turn: Turn)
    ensures
        turn@ == stop_windows_plan(replies.deep_view()),
{
    if replies.len() == 0 {
        Turn::attempt(end_task())
    } else if replies.len() == 1 {
        Turn::attempt(stop_windows_daemon_processes())
    } else {
        Turn::succeed(one_line("✅ Service stopped"))
    }
}

fn stdout_text(reply: &Reply) -> (text: &str)
    ensures
        text@ == stdout_of(reply@),
{
    match reply {
        Reply::Exited(output) => output.stdout.as_str(),
        _ => {
            proof {
                reveal_strlit("");
            }
            ""
        },
    }
}

fn is_daemon_running(reply: &Reply) -> (running: bool)
    ensures
        running == daemon_running(reply@),
{
    match windows_daemon_running(reply) {
        Ok(running) => running,
        Err(_) => false,
    }
}

/// The next turn of a status query on Windows, after `replies`.
pub fn status_windows(paths: &PlatformPaths, replies: &Vec<Reply>) -> (turn: Turn)
    ensures
        turn@ == status_windows_plan(paths@, replies.deep_view()),
{
    if replies.len() == 0 {
        return Turn::inquire(query_task());
    }
    if command_succeeded(&replies[0]) {
        if replies.len() == 1 {
            return Turn::inquire(windows_daemon_query());
        }
        if replies.len() == 2 {
            let task_running = contains(stdout_text(&replies[0]), "Running");
            let process_running = is_daemon_running(&replies[1]);
            return Turn::say_and_ask(
                task_status_report(task_running, process_running),
                windows_run_key_query(),
                Need::Inquiry,
            );
        }
        if windows_run_key_exists(&replies[2]) {
            Turn::succeed(startup_entry_report(paths))
        } else {
            Turn::succeed(no_lines())
        }
    } else {
        if replies.len() == 1 {
            return Turn::inquire(windows_run_key_query());
        }
        if !windows_run_key_exists(&replies[1]) {
            return Turn::succeed(one_line("Service: ❌ not installed"));
        }
        if replies.len() == 2 {
            return Turn::inquire(windows_daemon_query());
        }
        Turn::succeed(run_key_status_report(paths, is_daemon_running(&replies[2])))
    }
}

/// The next turn of an uninstallation on Windows, after `replies`.
pub fn uninstall_windows(paths: &PlatformPaths, replies: &Vec<Reply>) -> (turn: Turn)
    ensures
        turn@ == uninstall_windows_plan(paths@, replies.deep_view()),
{
    if replies.len() < 2 {
        stop_windows(replies)
    } else if replies.len() == 2 {
        Turn::say_and_ask(one_line("✅ Service stopped"), delete_task(), Need::Attempt)
    } else if replies.len() == 3 {
        Turn::attempt(uninstall_windows_run_key())
    } else if replies.len() == 4 {
        Turn::inquire(Request::path_exists(paths.wrapper.as_str()))
    } else if replies.len() == 5 && path_found(&replies[4]) {
        Turn::attempt(Request::remove_file(paths.wrapper.as_str()))
    } else {
        Turn::succeed(one_line("✅ Service uninstalled"))
    }
}

} // verus!
