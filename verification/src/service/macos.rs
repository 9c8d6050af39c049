//! The macOS strategy: a launchd agent of the user.
use vstd::prelude::*;
use crate::service::artifacts::{
    build_launchd_plist, daemon_descriptor, launchd_plist, service_label, ServiceDescriptor,
};
use crate::service::dialogue::{
    attempt, caused_error, fail, inquire, must, one_line, owned_texts, run_request, say_and_ask,
    say_and_fail, succeed, ErrorView, Need, Reply, ReplyView, Request, RequestView, ServiceError,
    Turn, TurnView,
};
use crate::service::locations::{exe_error, exe_view, home_error, PathsView, PlatformPaths};
use crate::service::runner::{
    captured, checked, found, io_outcome, io_result, path_found, run_capture, run_checked,
};
use crate::text::{concat2, concat3, contains, has_substring, texts};

verus! {

/// Loads the property list and lifts a standing order to keep it disabled.
pub open spec fn load_request(plist: Seq<char>) -> RequestView {
    run_request("launchctl"@, seq!["load"@, "-w"@, plist])
}

/// Starts the service.
pub open spec fn start_request() -> RequestView {
    run_request("launchctl"@, seq!["start"@, service_label()])
}

/// Stops the service.
pub open spec fn stop_request() -> RequestView {
    run_request("launchctl"@, seq!["stop"@, service_label()])
}

/// Unloads the property list and disables it.
pub open spec fn unload_request(plist: Seq<char>) -> RequestView {
    run_request("launchctl"@, seq!["unload"@, "-w"@, plist])
}

/// Lists the loaded services.
pub open spec fn list_request() -> RequestView {
    run_request("launchctl"@, seq!["list"@])
}

/// The error for a service definition that could not be deleted.
pub open spec fn remove_error(file: Seq<char>, cause: Seq<char>) -> ErrorView {
    caused_error("Failed to remove "@ + file, cause)
}

/// The report of an installation.
pub open spec fn installed_lines(file: Seq<char>) -> Seq<Seq<char>> {
    seq!["✅ Installed launchd service: "@ + file, "   Start with: zeroclaw service start"@]
}

/// The report of an uninstallation.
pub open spec fn uninstalled_lines(file: Seq<char>) -> Seq<Seq<char>> {
    seq!["✅ Service uninstalled ("@ + file + ")"@]
}

/// What `status` says of the list of loaded services: the daemon is loaded if
/// its label stands anywhere in it.
pub open spec fn loaded_line(listing: Seq<char>) -> Seq<char> {
    if has_substring(listing, service_label()) {
        "Service: ✅ running/loaded"@
    } else {
        "Service: ❌ not loaded"@
    }
}

/// Installation: create the directory of the property list and that of the
/// logs, then write the property list. Each step must succeed, and the home
/// directory and the executable must be known.
pub open spec fn install_macos_plan(
    exe: Result<Seq<char>, Seq<char>>,
    paths: PathsView,
    r: Seq<ReplyView>,
) -> TurnView {
    match paths.service {
        None => fail(home_error()),
        Some(definition) => {
            if r.len() == 0 {
                must(RequestView::CreateDirAll { path: definition.dir })
            } else if let Err(e) = io_outcome(r[0]) {
                fail(e)
            } else {
                match exe {
                    Err(cause) => fail(exe_error(cause)),
                    Ok(exe_path) => {
                        if r.len() == 1 {
                            must(RequestView::CreateDirAll { path: paths.logs_dir })
                        } else if let Err(e) = io_outcome(r[1]) {
                            fail(e)
                        } else if r.len() == 2 {
                            must(
                                RequestView::WriteFile {
                                    path: definition.file,
                                    content: launchd_plist(
                                        daemon_descriptor(exe_path),
                                        paths.stdout_log,
                                        paths.stderr_log,
                                    ),
                                },
                            )
                        } else if let Err(e) = io_outcome(r[2]) {
                            fail(e)
                        } else {
                            succeed(installed_lines(definition.file))
                        }
                    },
                }
            }
        },
    }
}

/// Start: load the property list, then start the label. Both must succeed.
pub open spec fn start_macos_plan(paths: PathsView, r: Seq<ReplyView>) -> TurnView {
    match paths.service {
        None => fail(home_error()),
        Some(definition) => {
            if r.len() == 0 {
                must(load_request(definition.file))
            } else if let Err(e) = checked(r[0]) {
                fail(e)
            } else if r.len() == 1 {
                must(start_request())
            } else if let Err(e) = checked(r[1]) {
                fail(e)
            } else {
                succeed(seq!["✅ Service started"@])
            }
        },
    }
}

/// Stop: stop the label, then unload the property list. Neither step can fail
/// the command; only an unknown home directory does.
pub open spec fn stop_macos_plan(paths: PathsView, r: Seq<ReplyView>) -> TurnView {
    match paths.service {
        None => fail(home_error()),
        Some(definition) => {
            if r.len() == 0 {
                attempt(stop_request())
            } else if r.len() == 1 {
                attempt(unload_request(definition.file))
            } else {
                succeed(seq!["✅ Service stopped"@])
            }
        },
    }
}

/// Status: list the loaded services and look for the label; then name the
/// property list.
pub open spec fn status_macos_plan(paths: PathsView, r: Seq<ReplyView>) -> TurnView {
    if r.len() == 0 {
        inquire(list_request())
    } else {
        match captured(r[0]) {
            Err(e) => fail(e),
            Ok(listing) => match paths.service {
                None => say_and_fail(seq![loaded_line(listing)], home_error()),
                Some(definition) => succeed(
                    seq![loaded_line(listing), "Unit: "@ + definition.file],
                ),
            },
        }
    }
}

/// Uninstall: stop, then delete the property list if it is there. A property
/// list that is there and cannot be deleted fails the command.
pub open spec fn uninstall_macos_plan(paths: PathsView, r: Seq<ReplyView>) -> TurnView {
    match paths.service {
        None => fail(home_error()),
        Some(definition) => {
            if r.len() < 2 {
                stop_macos_plan(paths, r)
            } else if r.len() == 2 {
                say_and_ask(
                    seq!["✅ Service stopped"@],
                    RequestView::PathExists { path: definition.file },
                    Need::Inquiry,
                )
            } else if !found(r[2]) {
                succeed(uninstalled_lines(definition.file))
            } else if r.len() == 3 {
                must(RequestView::RemoveFile { path: definition.file })
            } else {
                match io_outcome(r[3]) {
                    Err(e) => fail(remove_error(definition.file, e.message)),
                    Ok(_) => succeed(uninstalled_lines(definition.file)),
                }
            }
        },
    }
}

fn launchctl_on_file(verb: &str, plist: &str) -> (request: Request)
    ensures
        request@ == run_request("launchctl"@, seq![verb@, "-w"@, plist@]),
{
    let args = [verb, "-w", plist];
    proof {
        assert(texts(args@) =~= seq![verb@, "-w"@, plist@]);
    }
    Request::run("launchctl", &args)
}

fn launchctl_on_label(verb: &str) -> (request: Request)
    ensures
        request@ == run_request("launchctl"@, seq![verb@, service_label()]),
{
    let args = [verb, "com.zeroclaw.daemon"];
    proof {
        assert(texts(args@) =~= seq![verb@, service_label()]);
    }
    Request::run("launchctl", &args)
}

fn list_services() -> (request: Request)
    ensures
        request@ == list_request(),
{
    let args = ["list"];
    proof {
        assert(texts(args@) =~= seq!["list"@]);
    }
    Request::run("launchctl", &args)
}

fn installed_report(file: &str) -> (lines: Vec<String>)
    ensures
        lines.deep_view() == installed_lines(file@),
{
    let first = concat2("✅ Installed launchd service: ", file);
    let lines = [first.as_str(), "   Start with: zeroclaw service start"];
    owned_texts(&lines)
}

fn uninstalled_report(file: &str) -> (lines: Vec<String>)
    ensures
        lines.deep_view() == uninstalled_lines(file@),
{
    let line = concat3("✅ Service uninstalled (", file, ")");
    one_line(line.as_str())
}

fn loaded_report(listing: &str) -> (line: &'static str)
    ensures
        line@ == loaded_line(listing@),
{
    if contains(listing, "com.zeroclaw.daemon") {
        "Service: ✅ running/loaded"
    } else {
        "Service: ❌ not loaded"
    }
}

/// The error for a service definition that could not be deleted.
pub fn removal_failed(file: &str, cause: &ServiceError) -> (e: ServiceError)
    ensures
        e@ == remove_error(file@, cause@.message),
{
    let message = concat2("Failed to remove ", file);
    ServiceError { message, cause: Some(cause.message.clone()) }
}

/// The next turn of an installation on macOS, after `replies`.
pub fn install_macos(
    exe: &Result<String, String>,
    paths: &PlatformPaths,
    replies: &Vec<Reply>,
) -> (turn: Turn)
    ensures
        turn@ == install_macos_plan(exe_view(*exe), paths@, replies.deep_view()),
{
    let definition = match &paths.service {
        Some(definition) => definition,
        None => {
            return Turn::fail(ServiceError::new("Could not find home directory"));
        },
    };
    if replies.len() == 0 {
        return Turn::must(Request::create_dir_all(definition.dir.as_str()));
    }
    match io_result(&replies[0]) {
        Err(e) => {
            return Turn::fail(e);
        },
        Ok(_) => {},
    }
    let exe_path = match exe {
        Ok(path) => path,
        Err(cause) => {
            return Turn::fail(
                ServiceError::caused_by("Failed to resolve current executable", cause.as_str()),
            );
        },
    };
    if replies.len() == 1 {
        return Turn::must(Request::create_dir_all(paths.logs_dir.as_str()));
    }
    match io_result(&replies[1]) {
        Err(e) => {
            return Turn::fail(e);
        },
        Ok(_) => {},
    }
    if replies.len() == 2 {
        let descriptor = ServiceDescriptor::new(exe_path.as_str());
        let plist = build_launchd_plist(
            &descriptor,
            paths.stdout_log.as_str(),
            paths.stderr_log.as_str(),
        );
        return Turn::must(Request::write_file(definition.file.as_str(), plist));
    }
    match io_result(&replies[2]) {
        Err(e) => Turn::fail(e),
        Ok(_) => Turn::succeed(installed_report(definition.file.as_str())),
    }
}

/// The next turn of a start on macOS, after `replies`.
pub fn start_macos(paths: &PlatformPaths, replies: &Vec<Reply>) -> (turn: Turn)
    ensures
        turn@ == start_macos_plan(paths@, replies.deep_view()),
{
    let definition = match &paths.service {
        Some(definition) => definition,
        None => {
            return Turn::fail(ServiceError::new("Could not find home directory"));
        },
    };
    if replies.len() == 0 {
        return Turn::must(launchctl_on_file("load", definition.file.as_str()));
    }
    match run_checked(&replies[0]) {
        Err(e) => {
            return Turn::fail(e);
        },
        Ok(_) => {},
    }
    if replies.len() == 1 {
        return Turn::must(launchctl_on_label("start"));
    }
    match run_checked(&replies[1]) {
        Err(e) => Turn::fail(e),
        Ok(_) => Turn::succeed(one_line("✅ Service started")),
    }
}

/// The next turn of a stop on macOS, after `replies`.
pub fn stop_macos(paths: &PlatformPaths, replies: &Vec<Reply>) -> (turn: Turn)
    ensures
        turn@ == stop_macos_plan(paths@, replies.deep_view()),
{
    let definition = match &paths.service {
        Some(definition) => definition,
        None => {
            return Turn::fail(ServiceError::new("Could not find home directory"));
        },
    };
    if replies.len() == 0 {
        Turn::attempt(launchctl_on_label("stop"))
    } else if replies.len() == 1 {
        Turn::attempt(launchctl_on_file("unload", definition.file.as_str()))
    } else {
        Turn::succeed(one_line("✅ Service stopped"))
    }
}

/// The next turn of a status query on macOS, after `replies`.
pub fn status_macos(paths: &PlatformPaths, replies: &Vec<Reply>) -> (turn: Turn)
    ensures
        turn@ == status_macos_plan(paths@, replies.deep_view()),
{
    if replies.len() == 0 {
        return Turn::inquire(list_services());
    }
    match run_capture(&replies[0]) {
        Err(e) => Turn::fail(e),
        Ok(listing) => {
            let service = loaded_report(listing.as_str());
            match &paths.service {
                None => Turn::say_and_fail(
                    one_line(service),
                    ServiceError::new("Could not find home directory"),
                ),
                Some(definition) => {
                    let unit = concat2("Unit: ", definition.file.as_str());
                    let lines = [service, unit.as_str()];
                    proof {
                        assert(texts(lines@) =~= seq![
                            loaded_line(listing@),
                            "Unit: "@ + definition.file@,
                        ]);
                    }
                    Turn::succeed(owned_texts(&lines))
                },
            }
        },
    }
}

/// The next turn of an uninstallation on macOS, after `replies`.
pub fn uninstall_macos(paths: &PlatformPaths, replies: &Vec<Reply>) -> (turn: Turn)
    ensures
        turn@ == uninstall_macos_plan(paths@, replies.deep_view()),
{
    let definition = match &paths.service {
        Some(definition) => definition,
        None => {
            return Turn::fail(ServiceError::new("Could not find home directory"));
        },
    };
    if replies.len() < 2 {
        return stop_macos(paths, replies);
    }
    if replies.len() == 2 {
        return Turn::say_and_ask(
            one_line("✅ Service stopped"),
            Request::path_exists(definition.file.as_str()),
            Need::Inquiry,
        );
    }
    if !path_found(&replies[2]) {
        return Turn::succeed(uninstalled_report(definition.file.as_str()));
    }
    if replies.len() == 3 {
        return Turn::must(Request::remove_file(definition.file.as_str()));
    }
    match io_result(&replies[3]) {
        Err(e) => Turn::fail(removal_failed(definition.file.as_str(), &e)),
        Ok(_) => Turn::succeed(uninstalled_report(definition.file.as_str())),
    }
}

} // verus!
