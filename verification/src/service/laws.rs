//! What holds of every command, whatever the caller replies.
use vstd::prelude::*;
use crate::service::dialogue::{
    attempt, fail, inquire, must, succeed, Need, ReplyView, RequestView, StepView,
};
use crate::service::runner::{checked, exited_ok, io_outcome};
use crate::service::supervisor::supervisor_wrapper;
use crate::service::windows::{
    access_denied, add_run_key_request, create_task_request, daemon_running, delete_task_request,
    run_key_installed_lines, run_value, stdout_of, task_name,
};
use crate::text::has_substring;
use crate::service::{after, plan, unsupported_error, Platform, ServiceCommands, SessionView};

verus! {

/// The number of replies after which every command is over.
pub open spec fn longest_dialogue() -> nat {
    6
}

/// The session `s` as it was when it had `n` replies.
pub open spec fn back_then(s: SessionView, n: int) -> SessionView {
    SessionView { replies: s.replies.take(n), ..s }
}

/// The request that the reply at `at` answered.
pub open spec fn asked_at(s: SessionView, at: int) -> StepView {
    plan(back_then(s, at)).step
}

/// On a platform without a strategy every command fails at once, with the
/// same error, and asks for nothing.
pub proof fn lemma_unsupported_platform_fails(s: SessionView)
    requires
        s.platform == Platform::Unsupported,
    ensures
        plan(s) == fail(unsupported_error()),
{
}

/// Every command is over after six replies at most.
pub proof fn lemma_command_ends(s: SessionView)
    requires
        s.replies.len() >= longest_dialogue(),
    ensures
        plan(s).step is Finish,
{
}

/// A command that is over stays over: whatever is replied to it then, it says
/// the same again.
pub proof fn lemma_finished_stays_finished(s: SessionView, reply: ReplyView)
    requires
        plan(s).step is Finish,
    ensures
        plan(after(s, reply)) == plan(s),
{
}

/// The session `s` with another reply at `at`.
pub open spec fn with_reply(s: SessionView, at: int, reply: ReplyView) -> SessionView {
    SessionView { replies: s.replies.update(at, reply), ..s }
}

/// Whether `reply` tells that `request` failed.
pub open spec fn tells_failure(request: RequestView, reply: ReplyView) -> bool {
    match request {
        RequestView::Run { .. } => checked(reply) is Err,
        _ => io_outcome(reply) is Err,
    }
}

/// What is merely attempted cannot change the course of a command: had the
/// reply to such a request been any other, the command would say the same
/// now.
pub proof fn lemma_attempts_do_not_matter(s: SessionView, at: int, other: ReplyView)
    requires
        0 <= at < s.replies.len(),
        asked_at(s, at) matches StepView::Ask { need, .. } && need == Need::Attempt,
    ensures
        plan(with_reply(s, at, other)) == plan(s),
{
}

/// What must succeed does: if the reply to such a request tells that it
/// failed, the command is over, and it has failed.
pub proof fn lemma_required_failures_end_the_command(s: SessionView, reply: ReplyView)
    requires
        plan(s).step matches StepView::Ask { request, need } && need == Need::MustSucceed
            && tells_failure(request, reply),
    ensures
        plan(after(s, reply)).step matches StepView::Finish(Err(_)),
        plan(after(s, reply)).lines == Seq::<Seq<char>>::empty(),
{
}

/// Stop is best effort: no reply can make it fail. On macOS it fails only where
/// the home directory is not known, and then before anything is asked.
pub proof fn lemma_stop_never_fails(s: SessionView)
    requires
        s.command == ServiceCommands::Stop,
        s.platform != Platform::Unsupported,
        s.platform == Platform::MacOs ==> s.paths.service is Some,
    ensures
        !(plan(s).step matches StepView::Finish(Err(_))),
{
}

/// On Windows, status and uninstall are best effort as well: no reply can
/// make them fail.
pub proof fn lemma_windows_status_and_uninstall_never_fail(s: SessionView)
    requires
        s.platform == Platform::Windows,
        s.command == ServiceCommands::Status || s.command == ServiceCommands::Uninstall,
    ensures
        !(plan(s).step matches StepView::Finish(Err(_))),
{
}

/// Whether the reply at `at` tells that the scheduled task was created.
pub open spec fn created_task(s: SessionView, at: int) -> bool {
    &&& 0 <= at < s.replies.len()
    &&& asked_at(s, at) matches StepView::Ask { request, .. }
    &&& (request == create_task_request(s.paths.wrapper, "HIGHEST"@) || request
        == create_task_request(s.paths.wrapper, "LIMITED"@))
    &&& checked(s.replies[at]) is Ok
}

/// Whether the reply at `at` tells that the wrapper was put under the `Run`
/// key.
pub open spec fn added_run_key(s: SessionView, at: int) -> bool {
    &&& 0 <= at < s.replies.len()
    &&& asked_at(s, at) == must(add_run_key_request(s.paths.wrapper)).step
    &&& checked(s.replies[at]) is Ok
}

/// Whether the reply at `at` tells that the supervisor wrapper was written.
pub open spec fn wrote_wrapper(s: SessionView, at: int) -> bool {
    &&& 0 <= at < s.replies.len()
    &&& s.exe matches Ok(exe_path)
    &&& asked_at(s, at) == must(
        RequestView::WriteFile {
            path: s.paths.wrapper,
            content: supervisor_wrapper(
                exe_path,
                s.paths.state_file,
                s.paths.stdout_log,
                s.paths.stderr_log,
                s.paths.supervisor_log,
            ),
        },
    ).step
    &&& io_outcome(s.replies[at]) is Ok
}

/// Whether the request at `at` registers the wrapper to be started at logon,
/// as a task or under the `Run` key.
pub open spec fn registers(s: SessionView, at: int) -> bool {
    &&& 0 <= at < s.replies.len()
    &&& asked_at(s, at) matches StepView::Ask { request, .. }
    &&& (request == create_task_request(s.paths.wrapper, "HIGHEST"@) || request
        == create_task_request(s.paths.wrapper, "LIMITED"@) || request == add_run_key_request(
        s.paths.wrapper,
    ))
}

/// The requests of an installation on Windows differ from one another.
proof fn lemma_windows_requests_differ(wrapper: Seq<char>, level: Seq<char>)
    ensures
        create_task_request(wrapper, level) != add_run_key_request(wrapper),
        delete_task_request() != add_run_key_request(wrapper),
        delete_task_request() != create_task_request(wrapper, level),
{
    assert(delete_task_request()->args.len() == 4);
    assert(create_task_request(wrapper, level)->args.len() == 10);
}

/// A successful installation on Windows has written the wrapper before it
/// registered anything, and has registered it in exactly one way: either a
/// reply tells that the task was created, and the `Run` key was never asked
/// for; or no task was created, and a reply tells that the wrapper was put
/// under the `Run` key.
pub proof fn lemma_windows_install_registers_once(s: SessionView)
    requires
        s.command == ServiceCommands::Install,
        s.platform == Platform::Windows,
        plan(s).step == StepView::Finish(Ok(())),
    ensures
        wrote_wrapper(s, 1),
        forall|at: int| #[trigger] registers(s, at) ==> at > 1,
        (exists|at: int| created_task(s, at)) != (exists|at: int| added_run_key(s, at)),
        (exists|at: int| created_task(s, at)) ==> forall|at: int|
            0 <= at < s.replies.len() ==> #[trigger] asked_at(s, at) != must(
                add_run_key_request(s.paths.wrapper),
            ).step,
{
    let r = s.replies;
    let wrapper = s.paths.wrapper;
    lemma_windows_requests_differ(wrapper, "HIGHEST"@);
    lemma_windows_requests_differ(wrapper, "LIMITED"@);
    match checked(r[3]) {
        Ok(_) => {
            assert(created_task(s, 3));
        },
        Err(first) => {
            if access_denied(first.message) {
                match checked(r[4]) {
                    Ok(_) => {
                        assert(created_task(s, 4));
                    },
                    Err(_) => {
                        assert(added_run_key(s, 5));
                    },
                }
            } else {
                assert(added_run_key(s, 4));
            }
        },
    }
}

/// Where Windows refuses the scheduled task for want of privilege, at the
/// highest run level and then at the limited one, and accepts the startup
/// entry, the installation succeeds with the wrapper written and registered
/// under the `Run` key: these six requests are made, in this order, and no
/// other.
pub proof fn lemma_denied_task_leaves_a_startup_entry(s: SessionView)
    requires
        s.command == ServiceCommands::Install,
        s.platform == Platform::Windows,
        s.exe is Ok,
        s.replies.len() == 6,
        io_outcome(s.replies[0]) is Ok,
        io_outcome(s.replies[1]) is Ok,
        checked(s.replies[3]) matches Err(first) && access_denied(first.message),
        checked(s.replies[4]) is Err,
        checked(s.replies[5]) is Ok,
    ensures
        asked_at(s, 0) == must(RequestView::CreateDirAll { path: s.paths.logs_dir }).step,
        wrote_wrapper(s, 1),
        asked_at(s, 2) == attempt(delete_task_request()).step,
        asked_at(s, 3) == inquire(create_task_request(s.paths.wrapper, "HIGHEST"@)).step,
        asked_at(s, 4) == inquire(create_task_request(s.paths.wrapper, "LIMITED"@)).step,
        added_run_key(s, 5),
        plan(s) == succeed(
            run_key_installed_lines(s.paths, checked(s.replies[4])->Err_0.message),
        ),
{
}

/// Where the task, the startup entry and the wrapper of a stopped installation
/// are still there and no process of the daemon runs, the status on Windows
/// says that the service is not running, and still names the task, the
/// startup entry and the wrapper.
pub proof fn lemma_stopped_installation_is_still_named(s: SessionView)
    requires
        s.command == ServiceCommands::Status,
        s.platform == Platform::Windows,
        s.replies.len() == 3,
        exited_ok(s.replies[0]),
        !has_substring(stdout_of(s.replies[0]), "Running"@),
        !daemon_running(s.replies[1]),
        exited_ok(s.replies[2]),
    ensures
        plan(back_then(s, 2)).lines == seq![
            "Service: ❌ not running"@,
            "Mode: "@ + "stopped"@,
            "Task: "@ + task_name(),
        ],
        plan(s) == succeed(
            seq![
                "Startup entry: HKCU\\...\\Run\\"@ + run_value(),
                "Wrapper: "@ + s.paths.wrapper,
            ],
        ),
{
}

} // verus!
