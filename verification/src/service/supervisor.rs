//! The supervisor wrapper: a batch script that keeps the daemon running.
//!
//! Neither the scheduled task nor the startup entry restarts a process that
//! has died. The wrapper does: it starts the daemon, waits for it to exit,
//! notes the exit code, pauses and starts over, for ever.
//!
//! The script is modelled as a list of statements, so that what it does can be
//! stated of its structure; its text is that list written out, one statement to
//! a line.
use vstd::prelude::*;

verus! {

/// One statement of the batch script.
pub enum Statement {
    /// Stop the interpreter from echoing the commands it runs.
    EchoOff,
    /// Make `!NAME!` expand when a line runs, not when it is read.
    EnableDelayedExpansion,
    /// Give the variable a text.
    Assign { variable: Seq<char>, value: Seq<char> },
    /// Set the counter to zero.
    ResetCounter { counter: Seq<char> },
    /// A place that `Goto` can jump to.
    Label { name: Seq<char> },
    /// Add one to the counter.
    CountUp { counter: Seq<char> },
    /// Append a line to the file that the variable `log` names: date, time and
    /// the number of the attempt that begins, read from the counter.
    LogAttempt { counter: Seq<char>, log: Seq<char> },
    /// Delete the file that the variable names, if it is there.
    DeleteIfExists { file: Seq<char> },
    /// Run the program that the variable names with one argument and wait for
    /// it; its output is appended to the files that the two other variables name.
    RunCapturing { program: Seq<char>, argument: Seq<char>, stdout: Seq<char>, stderr: Seq<char> },
    /// Keep the exit code of the program that ran last in the variable.
    KeepExitCode { variable: Seq<char> },
    /// Append a line to the file that the variable `log` names: date, time, the
    /// exit code read from the variable `code`, and the pause that follows.
    LogExit { code: Seq<char>, seconds: Seq<char>, log: Seq<char> },
    /// Pause for the number of seconds, whatever is typed.
    Sleep { seconds: Seq<char> },
    /// Go on at the label.
    Goto { label: Seq<char> },
}

/// The statement as one line of the script, without the line's end.
pub open spec fn render(statement: Statement) -> Seq<char> {
    match statement {
        Statement::EchoOff => "@echo off"@,
        Statement::EnableDelayedExpansion => "setlocal EnableExtensions EnableDelayedExpansion"@,
        Statement::Assign { variable, value } => "set \""@ + variable + "="@ + value + "\""@,
        Statement::ResetCounter { counter } => "set /a "@ + counter + "=0"@,
        Statement::Label { name } => ":"@ + name,
        Statement::CountUp { counter } => "set /a "@ + counter + "+=1"@,
        Statement::LogAttempt { counter, log } => "echo [%date% %time%] starting daemon attempt !"@
            + counter + "!>>\"!"@ + log + "!\""@,
        Statement::DeleteIfExists { file } => "if exist \"!"@ + file + "!\" del /f /q \"!"@ + file
            + "!\" >nul 2>&1"@,
        Statement::RunCapturing { program, argument, stdout, stderr } => "\"!"@ + program + "!\" "@
            + argument + " >>\"!"@ + stdout + "!\" 2>>\"!"@ + stderr + "!\""@,
        Statement::KeepExitCode { variable } => "set \""@ + variable + "=!errorlevel!\""@,
        Statement::LogExit { code, seconds, log } =>
            "echo [%date% %time%] daemon exited with code !"@ + code + "!; restarting in "@
                + seconds + "s>>\"!"@ + log + "!\""@,
        Statement::Sleep { seconds } => "timeout /t "@ + seconds + " /nobreak >nul"@,
        Statement::Goto { label } => "goto "@ + label,
    }
}

/// The text of a script: each statement on a line of its own, each line ended
/// by carriage return and line feed.
pub open spec fn script_text(program: Seq<Statement>) -> Seq<char>
    decreases program.len(),
{
    if program.len() == 0 {
        Seq::empty()
    } else {
        script_text(program.drop_last()) + render(program.last()) + "\r\n"@
    }
}

/// The variable that holds the path of the daemon's executable.
pub open spec fn exe_variable() -> Seq<char> {
    "ZEROCLAW_EXE"@
}

/// The variable that holds the path of the daemon's state file.
pub open spec fn state_variable() -> Seq<char> {
    "ZEROCLAW_STATE"@
}

/// The variable that holds the path of the log of the daemon's standard output.
pub open spec fn stdout_variable() -> Seq<char> {
    "ZEROCLAW_STDOUT"@
}

/// The variable that holds the path of the log of the daemon's standard error.
pub open spec fn stderr_variable() -> Seq<char> {
    "ZEROCLAW_STDERR"@
}

/// The variable that holds the path of the supervisor's own log.
pub open spec fn supervisor_variable() -> Seq<char> {
    "ZEROCLAW_SUPERVISOR"@
}

/// The variable that counts the attempts to run the daemon.
pub open spec fn counter_variable() -> Seq<char> {
    "RESTART_COUNT"@
}

/// The variable that keeps the daemon's exit code.
pub open spec fn exit_code_variable() -> Seq<char> {
    "EXIT_CODE"@
}

/// The label at the top of a round.
pub open spec fn loop_label() -> Seq<char> {
    "run_loop"@
}

/// The argument that starts the daemon's long-running mode.
pub open spec fn start_argument() -> Seq<char> {
    "daemon"@
}

/// The pause between two runs of the daemon, in seconds.
pub open spec fn backoff_seconds() -> Seq<char> {
    "5"@
}

/// What the supervisor does before it enters its loop: it gives the five paths
/// their names and sets the attempt counter to zero.
pub open spec fn supervisor_prologue(
    exe_path: Seq<char>,
    state_file: Seq<char>,
    stdout_log: Seq<char>,
    stderr_log: Seq<char>,
    supervisor_log: Seq<char>,
) -> Seq<Statement> {
    seq![
        Statement::EchoOff,
        Statement::EnableDelayedExpansion,
        Statement::Assign { variable: exe_variable(), value: exe_path },
        Statement::Assign { variable: state_variable(), value: state_file },
        Statement::Assign { variable: stdout_variable(), value: stdout_log },
        Statement::Assign { variable: stderr_variable(), value: stderr_log },
        Statement::Assign { variable: supervisor_variable(), value: supervisor_log },
        Statement::ResetCounter { counter: counter_variable() },
    ]
}

/// One round of the supervisor, from the label to the jump back to it: count
/// the attempt and log it, delete the state file, run the daemon, keep and log
/// its exit code, pause.
pub open spec fn supervisor_loop() -> Seq<Statement> {
    seq![
        Statement::Label { name: loop_label() },
        Statement::CountUp { counter: counter_variable() },
        Statement::LogAttempt { counter: counter_variable(), log: supervisor_variable() },
        Statement::DeleteIfExists { file: state_variable() },
        Statement::RunCapturing {
            program: exe_variable(),
            argument: start_argument(),
            stdout: stdout_variable(),
            stderr: stderr_variable(),
        },
        Statement::KeepExitCode { variable: exit_code_variable() },
        Statement::LogExit {
            code: exit_code_variable(),
            seconds: backoff_seconds(),
            log: supervisor_variable(),
        },
        Statement::Sleep { seconds: backoff_seconds() },
        Statement::Goto { label: loop_label() },
    ]
}

/// The supervisor for the daemon at `exe_path`.
pub open spec fn supervisor_program(
    exe_path: Seq<char>,
    state_file: Seq<char>,
    stdout_log: Seq<char>,
    stderr_log: Seq<char>,
    supervisor_log: Seq<char>,
) -> Seq<Statement> {
    supervisor_prologue(exe_path, state_file, stdout_log, stderr_log, supervisor_log)
        + supervisor_loop()
}

/// The text of the supervisor wrapper.
pub open spec fn supervisor_wrapper(
    exe_path: Seq<char>,
    state_file: Seq<char>,
    stdout_log: Seq<char>,
    stderr_log: Seq<char>,
    supervisor_log: Seq<char>,
) -> Seq<char> {
    script_text(supervisor_program(exe_path, state_file, stdout_log, stderr_log, supervisor_log))
}

/// A script with one more statement has one more line.
pub proof fn lemma_script_text_push(program: Seq<Statement>, statement: Statement)
    ensures
        script_text(program.push(statement)) == script_text(program) + render(statement) + "\r\n"@,
{
    assert(program.push(statement).drop_last() =~= program);
}

/// Whether `program` gives `variable` the text `value` before it comes to
/// `before`.
pub open spec fn assigned_before(
    program: Seq<Statement>,
    variable: Seq<char>,
    value: Seq<char>,
    before: int,
) -> bool {
    exists|at: int|
        0 <= at < before && at < program.len() && #[trigger] program[at] == (Statement::Assign {
            variable,
            value,
        })
}

/// Whether `program` ends in a loop that has no way out: `top` is a label,
/// `bottom` is the last statement and jumps to that label, and nothing else
/// jumps anywhere.
pub open spec fn loops_for_ever(program: Seq<Statement>, top: int, bottom: int) -> bool {
    &&& 0 <= top < bottom
    &&& bottom == program.len() - 1
    &&& program[top] is Label
    &&& program[bottom] == (Statement::Goto { label: program[top]->name })
    &&& forall|at: int| 0 <= at < program.len() && #[trigger] program[at] is Goto ==> at == bottom
}

/// Whether one round of `program`, from `top` to `bottom`, is a supervised run
/// of the daemon: the state file is deleted at `delete`, before anything is
/// run; the daemon is run at `run`, with its output sent to the two logs; its
/// exit code is kept and then written to the supervisor's log at `log`; and
/// only after the pause at `wait` does the round end.
pub open spec fn supervises(
    program: Seq<Statement>,
    exe_path: Seq<char>,
    state_file: Seq<char>,
    stdout_log: Seq<char>,
    stderr_log: Seq<char>,
    supervisor_log: Seq<char>,
    top: int,
    delete: int,
    run: int,
    log: int,
    wait: int,
    bottom: int,
) -> bool {
    &&& loops_for_ever(program, top, bottom)
    &&& top < delete < run < log < wait < bottom
    &&& program[delete] matches Statement::DeleteIfExists { file }
    &&& assigned_before(program, file, state_file, top)
    &&& forall|at: int| top < at < delete ==> !(#[trigger] program[at] is RunCapturing)
    &&& program[run] matches Statement::RunCapturing { program: daemon, argument, stdout, stderr }
    &&& argument == start_argument()
    &&& assigned_before(program, daemon, exe_path, top)
    &&& assigned_before(program, stdout, stdout_log, top)
    &&& assigned_before(program, stderr, stderr_log, top)
    &&& program[run + 1] matches Statement::KeepExitCode { variable: kept }
    &&& program[log] matches Statement::LogExit { code, seconds, log: written }
    &&& code == kept
    &&& seconds == backoff_seconds()
    &&& assigned_before(program, written, supervisor_log, top)
    &&& program[wait] == (Statement::Sleep { seconds: backoff_seconds() })
}

/// Whatever the five paths are, the wrapper is a restart loop that supervises
/// the daemon: each round deletes the state file first, runs the daemon, logs
/// its exit code and pauses for the fixed delay, and the last statement jumps
/// back to the top of the round.
pub proof fn lemma_supervisor_restarts_the_daemon(
    exe_path: Seq<char>,
    state_file: Seq<char>,
    stdout_log: Seq<char>,
    stderr_log: Seq<char>,
    supervisor_log: Seq<char>,
)
    ensures
        exists|top: int, delete: int, run: int, log: int, wait: int, bottom: int| #[trigger]
            supervises(
                supervisor_program(exe_path, state_file, stdout_log, stderr_log, supervisor_log),
                exe_path,
                state_file,
                stdout_log,
                stderr_log,
                supervisor_log,
                top,
                delete,
                run,
                log,
                wait,
                bottom,
            ),
{
    let program = supervisor_program(exe_path, state_file, stdout_log, stderr_log, supervisor_log);
    assert(program[2] == (Statement::Assign { variable: exe_variable(), value: exe_path }));
    assert(program[3] == (Statement::Assign { variable: state_variable(), value: state_file }));
    assert(program[4] == (Statement::Assign { variable: stdout_variable(), value: stdout_log }));
    assert(program[5] == (Statement::Assign { variable: stderr_variable(), value: stderr_log }));
    assert(program[6] == (Statement::Assign {
        variable: supervisor_variable(),
        value: supervisor_log,
    }));
    assert(supervises(
        program,
        exe_path,
        state_file,
        stdout_log,
        stderr_log,
        supervisor_log,
        8,
        11,
        12,
        14,
        15,
        16,
    ));
}

/// Appends the line of `statement` to `out`.
fn emit(
    out: &mut String,
    line: &str,
    Ghost(program): Ghost<Seq<Statement>>,
    Ghost(statement): Ghost<Statement>,
)
    requires
        old(out)@ == script_text(program),
        line@ == render(statement),
    ensures
        final(out)@ == script_text(program.push(statement)),
{
    proof {
        lemma_script_text_push(program, statement);
    }
    out.append(line);
    out.append("\r\n");
}

fn assign_line(variable: &str, value: &str) -> (line: String)
    ensures
        line@ == render(Statement::Assign { variable: variable@, value: value@ }),
{
    let mut line = String::from_str("set \"");
    line.append(variable);
    line.append("=");
    line.append(value);
    line.append("\"");
    line
}

fn attempt_line(counter: &str, log: &str) -> (line: String)
    ensures
        line@ == render(Statement::LogAttempt { counter: counter@, log: log@ }),
{
    let mut line = String::from_str("echo [%date% %time%] starting daemon attempt !");
    line.append(counter);
    line.append("!>>\"!");
    line.append(log);
    line.append("!\"");
    line
}

fn exit_line(code: &str, seconds: &str, log: &str) -> (line: String)
    ensures
        line@ == render(Statement::LogExit { code: code@, seconds: seconds@, log: log@ }),
{
    let mut line = String::from_str("echo [%date% %time%] daemon exited with code !");
    line.append(code);
    line.append("!; restarting in ");
    line.append(seconds);
    line.append("s>>\"!");
    line.append(log);
    line.append("!\"");
    line
}

fn delete_line(file: &str) -> (line: String)
    ensures
        line@ == render(Statement::DeleteIfExists { file: file@ }),
{
    let mut line = String::from_str("if exist \"!");
    line.append(file);
    line.append("!\" del /f /q \"!");
    line.append(file);
    line.append("!\" >nul 2>&1");
    line
}

fn run_line(program: &str, argument: &str, stdout: &str, stderr: &str) -> (line: String)
    ensures
        line@ == render(
            Statement::RunCapturing {
                program: program@,
                argument: argument@,
                stdout: stdout@,
                stderr: stderr@,
            },
        ),
{
    let mut line = String::from_str("\"!");
    line.append(program);
    line.append("!\" ");
    line.append(argument);
    line.append(" >>\"!");
    line.append(stdout);
    line.append("!\" 2>>\"!");
    line.append(stderr);
    line.append("!\"");
    line
}

fn keyword_line(keyword: &str, name: &str) -> (line: String)
    ensures
        line@ == keyword@ + name@,
{
    let mut line = String::from_str(keyword);
    line.append(name);
    line
}

fn framed_line(before: &str, name: &str, after: &str) -> (line: String)
    ensures
        line@ == before@ + name@ + after@,
{
    let mut line = String::from_str(before);
    line.append(name);
    line.append(after);
    line
}

/// Writes the supervisor wrapper for the daemon at `exe_path`: a batch script
/// that, round after round, deletes `state_file`, runs the daemon with its
/// output appended to `stdout_log` and `stderr_log`, notes the exit code in
/// `supervisor_log`, waits five seconds and starts over.
pub fn build_windows_supervisor_wrapper(
    exe_path: &str,
    state_file: &str,
    stdout_log: &str,
    stderr_log: &str,
    supervisor_log: &str,
) -> (script: String)
    ensures
        script@ == supervisor_wrapper(
            exe_path@,
            state_file@,
            stdout_log@,
            stderr_log@,
            supervisor_log@,
        ),
{
    let mut out = String::new();
    let ghost mut program: Seq<Statement> = Seq::empty();
    let ghost mut next: Statement = Statement::EchoOff;

    emit(&mut out, "@echo off", Ghost(program), Ghost(next));
    proof {
        program = program.push(next);
        next = Statement::EnableDelayedExpansion;
    }
    emit(&mut out, "setlocal EnableExtensions EnableDelayedExpansion", Ghost(program), Ghost(next));
    proof {
        program = program.push(next);
        next = Statement::Assign { variable: exe_variable(), value: exe_path@ };
    }
    emit(&mut out, assign_line("ZEROCLAW_EXE", exe_path).as_str(), Ghost(program), Ghost(next));
    proof {
        program = program.push(next);
        next = Statement::Assign { variable: state_variable(), value: state_file@ };
    }
    emit(&mut out, assign_line("ZEROCLAW_STATE", state_file).as_str(), Ghost(program), Ghost(next));
    proof {
        program = program.push(next);
        next = Statement::Assign { variable: stdout_variable(), value: stdout_log@ };
    }
    emit(
        &mut out,
        assign_line("ZEROCLAW_STDOUT", stdout_log).as_str(),
        Ghost(program),
        Ghost(next),
    );
    proof {
        program = program.push(next);
        next = Statement::Assign { variable: stderr_variable(), value: stderr_log@ };
    }
    emit(
        &mut out,
        assign_line("ZEROCLAW_STDERR", stderr_log).as_str(),
        Ghost(program),
        Ghost(next),
    );
    proof {
        program = program.push(next);
        next = Statement::Assign { variable: supervisor_variable(), value: supervisor_log@ };
    }
    emit(
        &mut out,
        assign_line("ZEROCLAW_SUPERVISOR", supervisor_log).as_str(),
        Ghost(program),
        Ghost(next),
    );
    proof {
        program = program.push(next);
        next = Statement::ResetCounter { counter: counter_variable() };
    }
    emit(
        &mut out,
        framed_line("set /a ", "RESTART_COUNT", "=0").as_str(),
        Ghost(program),
        Ghost(next),
    );
    proof {
        program = program.push(next);
        next = Statement::Label { name: loop_label() };
    }
    emit(&mut out, keyword_line(":", "run_loop").as_str(), Ghost(program), Ghost(next));
    proof {
        program = program.push(next);
        next = Statement::CountUp { counter: counter_variable() };
    }
    emit(
        &mut out,
        framed_line("set /a ", "RESTART_COUNT", "+=1").as_str(),
        Ghost(program),
        Ghost(next),
    );
    proof {
        program = program.push(next);
        next = Statement::LogAttempt { counter: counter_variable(), log: supervisor_variable() };
    }
    emit(
        &mut out,
        attempt_line("RESTART_COUNT", "ZEROCLAW_SUPERVISOR").as_str(),
        Ghost(program),
        Ghost(next),
    );
    proof {
        program = program.push(next);
        next = Statement::DeleteIfExists { file: state_variable() };
    }
    emit(&mut out, delete_line("ZEROCLAW_STATE").as_str(), Ghost(program), Ghost(next));
    proof {
        program = program.push(next);
        next = Statement::RunCapturing {
            program: exe_variable(),
            argument: start_argument(),
            stdout: stdout_variable(),
            stderr: stderr_variable(),
        };
    }
    emit(
        &mut out,
        run_line("ZEROCLAW_EXE", "daemon", "ZEROCLAW_STDOUT", "ZEROCLAW_STDERR").as_str(),
        Ghost(program),
        Ghost(next),
    );
    proof {
        program = program.push(next);
        next = Statement::KeepExitCode { variable: exit_code_variable() };
    }
    emit(
        &mut out,
        framed_line("set \"", "EXIT_CODE", "=!errorlevel!\"").as_str(),
        Ghost(program),
        Ghost(next),
    );
    proof {
        program = program.push(next);
        next = Statement::LogExit {
            code: exit_code_variable(),
            seconds: backoff_seconds(),
            log: supervisor_variable(),
        };
    }
    emit(
        &mut out,
        exit_line("EXIT_CODE", "5", "ZEROCLAW_SUPERVISOR").as_str(),
        Ghost(program),
        Ghost(next),
    );
    proof {
        program = program.push(next);
        next = Statement::Sleep { seconds: backoff_seconds() };
    }
    emit(
        &mut out,
        framed_line("timeout /t ", "5", " /nobreak >nul").as_str(),
        Ghost(program),
        Ghost(next),
    );
    proof {
        program = program.push(next);
        next = Statement::Goto { label: loop_label() };
    }
    emit(&mut out, keyword_line("goto ", "run_loop").as_str(), Ghost(program), Ghost(next));
    proof {
        program = program.push(next);
        assert(program =~= supervisor_program(
            exe_path@,
            state_file@,
            stdout_log@,
            stderr_log@,
            supervisor_log@,
        ));
    }
    out
}

} // verus!
