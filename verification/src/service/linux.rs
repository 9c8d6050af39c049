//! The Linux strategy: a unit of the user's systemd.
use vstd::prelude::*;
use crate::service::artifacts::{
    build_systemd_unit, daemon_descriptor, systemd_unit, ServiceDescriptor,
};
use crate::service::dialogue::{
    attempt, fail, inquire, must, one_line, owned_texts, run_request, say_and_ask, say_and_fail,
    succeed, Need, Reply, ReplyView, Request, RequestView, ServiceError, Turn, TurnView,
};
use crate::service::locations::{exe_error, exe_view, home_error, PathsView, PlatformPaths};
use crate::service::macos::{remove_error, removal_failed, uninstalled_lines};
use crate::service::runner::{
    captured, checked, found, io_outcome, io_result, path_found, run_capture, run_checked,
};
use crate::text::{concat2, concat3, texts, trim, trimmed};

verus! {

/// The name of the daemon's unit.
pub open spec fn unit_name() -> Seq<char> {
    "zeroclaw.service"@
}

/// Makes the user's systemd read its unit files again.
pub open spec fn reload_request() -> RequestView {
    run_request("systemctl"@, seq!["--user"@, "daemon-reload"@])
}

/// Applies `verb` to the daemon's unit.
pub open spec fn unit_request(verb: Seq<char>) -> RequestView {
    run_request("systemctl"@, seq!["--user"@, verb, unit_name()])
}

/// The report of an installation.
pub open spec fn installed_lines(file: Seq<char>) -> Seq<Seq<char>> {
    seq!["✅ Installed systemd user service: "@ + file, "   Start with: zeroclaw service start"@]
}

/// What `status` says of the reply to `is-active`: the state that systemd
/// names, or `unknown` where it could not be asked.
pub open spec fn state_line(reply: ReplyView) -> Seq<char> {
    "Service state: "@ + match captured(reply) {
        Ok(out) => trimmed(out),
        Err(_) => "unknown"@,
    }
}

/// Installation: create the directory of the unit file and write the file,
/// both of which must succeed; then have systemd read it and enable it, as far
/// as that goes.
pub open spec fn install_linux_plan(
    exe: Result<Seq<char>, Seq<char>>,
    paths: PathsView,
    r: Seq<ReplyView>,
) -> TurnView {
    match paths.service {
        None => fail(home_error()),
        Some(definition) => {
            if r.len() == 0 {
                must(RequestView::CreateDirAll { path: definition.dir })
            } else if let Err(e) = io_outcome(r[0]) {
                fail(e)
            } else {
                match exe {
                    Err(cause) => fail(exe_error(cause)),
                    Ok(exe_path) => {
                        if r.len() == 1 {
                            must(
                                RequestView::WriteFile {
                                    path: definition.file,
                                    content: systemd_unit(daemon_descriptor(exe_path)),
                                },
                            )
                        } else if let Err(e) = io_outcome(r[1]) {
                            fail(e)
                        } else if r.len() == 2 {
                            attempt(reload_request())
                        } else if r.len() == 3 {
                            attempt(unit_request("enable"@))
                        } else {
                            succeed(installed_lines(definition.file))
                        }
                    },
                }
            }
        },
    }
}

/// Start: have systemd read its unit files, as far as that goes, then start
/// the unit, which must succeed.
pub open spec fn start_linux_plan(r: Seq<ReplyView>) -> TurnView {
    if r.len() == 0 {
        attempt(reload_request())
    } else if r.len() == 1 {
        must(unit_request("start"@))
    } else {
        match checked(r[1]) {
            Err(e) => fail(e),
            Ok(_) => succeed(seq!["✅ Service started"@]),
        }
    }
}

/// Stop: have systemd read its unit files, then stop the unit. Neither step
/// can fail the command.
pub open spec fn stop_linux_plan(r: Seq<ReplyView>) -> TurnView {
    if r.len() == 0 {
        attempt(reload_request())
    } else if r.len() == 1 {
        attempt(unit_request("stop"@))
    } else {
        succeed(seq!["✅ Service stopped"@])
    }
}

/// Status: ask systemd whether the unit is active; then name the unit file.
pub open spec fn status_linux_plan(paths: PathsView, r: Seq<ReplyView>) -> TurnView {
    if r.len() == 0 {
        inquire(unit_request("is-active"@))
    } else {
        match paths.service {
            None => say_and_fail(seq![state_line(r[0])], home_error()),
            Some(definition) => succeed(seq![state_line(r[0]), "Unit: "@ + definition.file]),
        }
    }
}

/// Uninstall: stop; delete the unit file if it is there, which must succeed;
/// then have systemd read its unit files, as far as that goes.
pub open spec fn uninstall_linux_plan(paths: PathsView, r: Seq<ReplyView>) -> TurnView {
    if r.len() < 2 {
        stop_linux_plan(r)
    } else {
        match paths.service {
            None => say_and_fail(seq!["✅ Service stopped"@], home_error()),
            Some(definition) => {
                if r.len() == 2 {
                    say_and_ask(
                        seq!["✅ Service stopped"@],
                        RequestView::PathExists { path: definition.file },
                        Need::Inquiry,
                    )
                } else if !found(r[2]) {
                    if r.len() == 3 {
                        attempt(reload_request())
                    } else {
                        succeed(uninstalled_lines(definition.file))
                    }
                } else if r.len() == 3 {
                    must(RequestView::RemoveFile { path: definition.file })
                } else if let Err(e) = io_outcome(r[3]) {
                    fail(remove_error(definition.file, e.message))
                } else if r.len() == 4 {
                    attempt(reload_request())
                } else {
                    succeed(uninstalled_lines(definition.file))
                }
            },
        }
    }
}

fn reload() -> (request: Request)
    ensures
        request@ == reload_request(),
{
    let args = ["--user", "daemon-reload"];
    proof {
        assert(texts(args@) =~= seq!["--user"@, "daemon-reload"@]);
    }
    Request::run("systemctl", &args)
}

fn on_unit(verb: &str) -> (request: Request)
    ensures
        request@ == unit_request(verb@),
{
    let args = ["--user", verb, "zeroclaw.service"];
    proof {
        assert(texts(args@) =~= seq!["--user"@, verb@, unit_name()]);
    }
    Request::run("systemctl", &args)
}

fn installed_report(file: &str) -> (lines: Vec<String>)
    ensures
        lines.deep_view() == installed_lines(file@),
{
    let first = concat2("✅ Installed systemd user service: ", file);
    let lines = [first.as_str(), "   Start with: zeroclaw service start"];
    owned_texts(&lines)
}

fn uninstalled_report(file: &str) -> (lines: Vec<String>)
    ensures
        lines.deep_view() == uninstalled_lines(file@),
{
    let line = concat3("✅ Service uninstalled (", file, ")");
    one_line(line.as_str())
}

fn state_report(reply: &Reply) -> (line: String)
    ensures
        line@ == state_line(reply@),
{
    match run_capture(reply) {
        Ok(out) => {
            let state = trim(out.as_str());
            concat2("Service state: ", state.as_str())
        },
        Err(_) => concat2("Service state: ", "unknown"),
    }
}

/// The next turn of an installation on Linux, after `replies`.
pub fn install_linux(
    exe: &Result<String, String>,
    paths: &PlatformPaths,
    replies: &Vec<Reply>,
) -> (turn: Turn)
    ensures
        turn@ == install_linux_plan(exe_view(*exe), paths@, replies.deep_view()),
{
    let definition = match &paths.service {
        Some(definition) => definition,
        None => {
            return Turn::fail(ServiceError::new("Could not find home directory"));
        },
    };
    if replies.len() == 0 {
        return Turn::must(Request::create_dir_all(definition.dir.as_str()));
    }
    match io_result(&replies[0]) {
        Err(e) => {
            return Turn::fail(e);
        },
        Ok(_) => {},
    }
    let exe_path = match exe {
        Ok(path) => path,
        Err(cause) => {
            return Turn::fail(
                ServiceError::caused_by("Failed to resolve current executable", cause.as_str()),
            );
        },
    };
    if replies.len() == 1 {
        let descriptor = ServiceDescriptor::new(exe_path.as_str());
        let unit = build_systemd_unit(&descriptor);
        return Turn::must(Request::write_file(definition.file.as_str(), unit));
    }
    match io_result(&replies[1]) {
        Err(e) => {
            return Turn::fail(e);
        },
        Ok(_) => {},
    }
    if replies.len() == 2 {
        Turn::attempt(reload())
    } else if replies.len() == 3 {
        Turn::attempt(on_unit("enable"))
    } else {
        Turn::succeed(installed_report(definition.file.as_str()))
    }
}

/// The next turn of a start on Linux, after `replies`.
pub fn start_linux(replies: &Vec<Reply>) -> (turn: Turn)
    ensures
        turn@ == start_linux_plan(replies.deep_view()),
{
    if replies.len() == 0 {
        return Turn::attempt(reload());
    }
    if replies.len() == 1 {
        return Turn::must(on_unit("start"));
    }
    match run_checked(&replies[1]) {
        Err(e) => Turn::fail(e),
        Ok(_) => Turn::succeed(one_line("✅ Service started")),
    }
}

/// The next turn of a stop on Linux, after `replies`.
pub fn stop_linux(replies: &Vec<Reply>) -> (turn: Turn)
    ensures
        turn@ == stop_linux_plan(replies.deep_view()),
{
    if replies.len() == 0 {
        Turn::attempt(reload())
    } else if replies.len() == 1 {
        Turn::attempt(on_unit("stop"))
    } else {
        Turn::succeed(one_line("✅ Service stopped"))
    }
}

/// The next turn of a status query on Linux, after `replies`.
pub fn status_linux(paths: &PlatformPaths, replies: &Vec<Reply>) -> (turn: Turn)
    ensures
        turn@ == status_linux_plan(paths@, replies.deep_view()),
{
    if replies.len() == 0 {
        return Turn::inquire(on_unit("is-active"));
    }
    let state = state_report(&replies[0]);
    match &paths.service {
        None => Turn::say_and_fail(
            one_line(state.as_str()),
            ServiceError::new("Could not find home directory"),
        ),
        Some(definition) => {
            let unit = concat2("Unit: ", definition.file.as_str());
            let lines = [state.as_str(), unit.as_str()];
            proof {
                assert(texts(lines@) =~= seq![
                    state_line(replies.deep_view()[0]),
                    "Unit: "@ + definition.file@,
                ]);
            }
            Turn::succeed(owned_texts(&lines))
        },
    }
}

/// The next turn of an uninstallation on Linux, after `replies`.
pub fn uninstall_linux(paths: &PlatformPaths, replies: &Vec<Reply>) -> (turn: Turn)
    ensures
        turn@ == uninstall_linux_plan(paths@, replies.deep_view()),
{
    if replies.len() < 2 {
        return stop_linux(replies);
    }
    let definition = match &paths.service {
        Some(definition) => definition,
        None => {
            return Turn::say_and_fail(
                one_line("✅ Service stopped"),
                ServiceError::new("Could not find home directory"),
            );
        },
    };
    if replies.len() == 2 {
        return Turn::say_and_ask(
            one_line("✅ Service stopped"),
            Request::path_exists(definition.file.as_str()),
            Need::Inquiry,
        );
    }
    if !path_found(&replies[2]) {
        if replies.len() == 3 {
            return Turn::attempt(reload());
        }
        return Turn::succeed(uninstalled_report(definition.file.as_str()));
    }
    if replies.len() == 3 {
        return Turn::must(Request::remove_file(definition.file.as_str()));
    }
    match io_result(&replies[3]) {
        Err(e) => {
            return Turn::fail(removal_failed(definition.file.as_str(), &e));
        },
        Ok(_) => {},
    }
    if replies.len() == 4 {
        Turn::attempt(reload())
    } else {
        Turn::succeed(uninstalled_report(definition.file.as_str()))
    }
}

} // verus!
