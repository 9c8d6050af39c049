//! The dialogue between the library and its caller.
//!
//! The library touches neither the file system nor other programs. It names
//! one operation at a time as a [`Request`]; the caller carries it out and
//! reports back with a [`Reply`]. A [`Turn`] is what the library says at one
//! point of a command: lines for the user, and then either the next request or
//! the command's result.
//!
//! With each request the library says what the command needs of it. Some
//! requests must succeed; some are attempted and their failure is passed over,
//! since what they clean up may not be there; some are made to learn how to go
//! on.
use vstd::prelude::*;
use crate::text::texts;

verus! {

/// Why a command failed.
#[derive(Debug, Clone, PartialEq, Eq)]
pub struct ServiceError {
    /// What could not be done.
    pub message: String,
    /// The message of the underlying failure, where there is one.
    pub cause: Option<String>,
}

/// [`ServiceError`] as contracts speak of it: every text is the sequence of its
/// characters.
pub struct ErrorView {
    pub message: Seq<char>,
    pub cause: Option<Seq<char>>,
}

impl View for ServiceError {
    type V = ErrorView;

    open spec fn view(&self) -> ErrorView {
        ErrorView {
            message: self.message@,
            cause: match self.cause {
                Some(cause) => Some(cause@),
                None => None,
            },
        }
    }
}

/// An error that has no underlying failure.
pub open spec fn plain_error(message: Seq<char>) -> ErrorView {
    ErrorView { message, cause: None }
}

/// An error that wraps the failure `cause`.
pub open spec fn caused_error(message: Seq<char>, cause: Seq<char>) -> ErrorView {
    ErrorView { message, cause: Some(cause) }
}

impl ServiceError {
    /// An error that has no underlying failure.
    pub fn new(message: &str) -> (e: ServiceError)
        ensures
            e@ == plain_error(message@),
    {
        ServiceError { message: String::from_str(message), cause: None }
    }

    /// An error that wraps the failure `cause`.
    pub fn caused_by(message: &str, cause: &str) -> (e: ServiceError)
        ensures
            e@ == caused_error(message@, cause@),
    {
        ServiceError { message: String::from_str(message), cause: Some(String::from_str(cause)) }
    }

    /// The message, without the cause.
    pub fn to_string(&self) -> (s: String)
        ensures
            s@ == self@.message,
    {
        self.message.clone()
    }

    /// The message, followed by a colon and the cause where there is one.
    pub fn report(&self) -> (s: String)
        ensures
            s@ == match self@.cause {
                Some(cause) => self@.message + ": "@ + cause,
                None => self@.message,
            },
    {
        let mut s = self.message.clone();
        match &self.cause {
            Some(cause) => {
                s.append(": ");
                s.append(cause.as_str());
            },
            None => {},
        }
        s
    }
}

/// What an external command left behind.
#[derive(Debug, Clone, PartialEq, Eq)]
pub struct CommandOutput {
    /// Whether it exited with status zero.
    pub success: bool,
    /// Its standard output, as text.
    pub stdout: String,
    /// Its standard error, as text.
    pub stderr: String,
}

/// [`CommandOutput`] as contracts speak of it: every text is the sequence of its
/// characters.
pub struct OutputView {
    pub success: bool,
    pub stdout: Seq<char>,
    pub stderr: Seq<char>,
}

impl View for CommandOutput {
    type V = OutputView;

    open spec fn view(&self) -> OutputView {
        OutputView { success: self.success, stdout: self.stdout@, stderr: self.stderr@ }
    }
}

/// One operation that the caller is asked to carry out.
#[derive(Debug, Clone, PartialEq, Eq)]
pub enum Request {
    /// Create the directory and every missing directory above it.
    CreateDirAll { path: String },
    /// Write the whole file, replacing what was there.
    WriteFile { path: String, content: String },
    /// Delete the file.
    RemoveFile { path: String },
    /// Find out whether anything exists at the path.
    PathExists { path: String },
    /// Run the program with the arguments, wait for it and capture its output.
    Run { program: String, args: Vec<String> },
}

/// [`Request`] as contracts speak of it: every text is the sequence of its
/// characters.
pub enum RequestView {
    CreateDirAll { path: Seq<char> },
    WriteFile { path: Seq<char>, content: Seq<char> },
    RemoveFile { path: Seq<char> },
    PathExists { path: Seq<char> },
    Run { program: Seq<char>, args: Seq<Seq<char>> },
}

impl View for Request {
    type V = RequestView;

    open spec fn view(&self) -> RequestView {
        match self {
            Request::CreateDirAll { path } => RequestView::CreateDirAll { path: path@ },
            Request::WriteFile { path, content } => RequestView::WriteFile {
                path: path@,
                content: content@,
            },
            Request::RemoveFile { path } => RequestView::RemoveFile { path: path@ },
            Request::PathExists { path } => RequestView::PathExists { path: path@ },
            Request::Run { program, args } => RequestView::Run {
                program: program@,
                args: args.deep_view(),
            },
        }
    }
}

/// How a request went.
#[derive(Debug, Clone, PartialEq, Eq)]
pub enum Reply {
    /// The file-system operation was carried out.
    Done,
    /// The file-system operation failed; the text is the system's message.
    Failed(String),
    /// Whether the path exists.
    Exists(bool),
    /// The command ran to its end.
    Exited(CommandOutput),
    /// The command could not be started; the text is the system's message.
    NotStarted(String),
}

/// [`Reply`] as contracts speak of it: every text is the sequence of its
/// characters.
pub enum ReplyView {
    Done,
    Failed(Seq<char>),
    Exists(bool),
    Exited(OutputView),
    NotStarted(Seq<char>),
}

impl View for Reply {
    type V = ReplyView;

    open spec fn view(&self) -> ReplyView {
        match self {
            Reply::Done => ReplyView::Done,
            Reply::Failed(message) => ReplyView::Failed(message@),
            Reply::Exists(found) => ReplyView::Exists(*found),
            Reply::Exited(output) => ReplyView::Exited(output@),
            Reply::NotStarted(message) => ReplyView::NotStarted(message@),
        }
    }
}

impl DeepView for Reply {
    type V = ReplyView;

    open spec fn deep_view(&self) -> ReplyView {
        self@
    }
}

/// What the command needs of a request.
#[derive(Debug, Clone, Copy, PartialEq, Eq, Structural)]
pub enum Need {
    /// The request must succeed: if it fails, so does the command.
    MustSucceed,
    /// The request is attempted as far as it goes: whether it fails or not,
    /// the command goes on in the same way.
    Attempt,
    /// The reply is read and decides how the command goes on.
    Inquiry,
}

/// How a turn ends: with the next request, or with the command's result.
#[derive(Debug, PartialEq, Eq)]
pub enum Step {
    Ask { request: Request, need: Need },
    Finish(Result<(), ServiceError>),
}

/// [`Step`] as contracts speak of it: every text is the sequence of its
/// characters.
pub enum StepView {
    Ask { request: RequestView, need: Need },
    Finish(Result<(), ErrorView>),
}

/// The view of a command's result.
pub open spec fn result_view(result: Result<(), ServiceError>) -> Result<(), ErrorView> {
    match result {
        Ok(_) => Ok(()),
        Err(e) => Err(e@),
    }
}

impl View for Step {
    type V = StepView;

    open spec fn view(&self) -> StepView {
        match self {
            Step::Ask { request, need } => StepView::Ask { request: request@, need: *need },
            Step::Finish(result) => StepView::Finish(result_view(*result)),
        }
    }
}

/// What the library says at one point of a command.
#[derive(Debug, PartialEq, Eq)]
pub struct Turn {
    /// Lines to print for the user, in order, before anything else is done.
    pub lines: Vec<String>,
    /// What follows.
    pub step: Step,
}

/// [`Turn`] as contracts speak of it: every text is the sequence of its
/// characters.
pub struct TurnView {
    pub lines: Seq<Seq<char>>,
    pub step: StepView,
}

impl View for Turn {
    type V = TurnView;

    open spec fn view(&self) -> TurnView {
        TurnView { lines: self.lines.deep_view(), step: self.step@ }
    }
}

/// The turn that prints `lines` and asks for `request`.
pub open spec fn say_and_ask(lines: Seq<Seq<char>>, request: RequestView, need: Need) -> TurnView {
    TurnView { lines, step: StepView::Ask { request, need } }
}

/// The turn that asks for `request`, which must succeed.
pub open spec fn must(request: RequestView) -> TurnView {
    say_and_ask(Seq::empty(), request, Need::MustSucceed)
}

/// The turn that asks for `request`, as far as it goes.
pub open spec fn attempt(request: RequestView) -> TurnView {
    say_and_ask(Seq::empty(), request, Need::Attempt)
}

/// The turn that asks for `request` to learn from the reply.
pub open spec fn inquire(request: RequestView) -> TurnView {
    say_and_ask(Seq::empty(), request, Need::Inquiry)
}

/// The turn that prints `lines` and ends the command with success.
pub open spec fn succeed(lines: Seq<Seq<char>>) -> TurnView {
    TurnView { lines, step: StepView::Finish(Ok(())) }
}

/// The turn that prints nothing and ends the command with `error`.
pub open spec fn fail(error: ErrorView) -> TurnView {
    TurnView { lines: Seq::empty(), step: StepView::Finish(Err(error)) }
}

/// The turn that prints `lines` and ends the command with `error`.
pub open spec fn say_and_fail(lines: Seq<Seq<char>>, error: ErrorView) -> TurnView {
    TurnView { lines, step: StepView::Finish(Err(error)) }
}

/// The request to run `program` with `args`.
pub open spec fn run_request(program: Seq<char>, args: Seq<Seq<char>>) -> RequestView {
    RequestView::Run { program, args }
}

/// The owned copies of `items`, in order.
pub fn owned_texts(items: &[&str]) -> (list: Vec<String>)
    ensures
        list.deep_view() == texts(items@),
{
    let mut list: Vec<String> = Vec::new();
    let mut i: usize = 0;
    while i < items.len()
        invariant
            i <= items.len(),
            list.deep_view() == texts(items@.take(i as int)),
        decreases items.len() - i,
    {
        list.push(String::from_str(items[i]));
        proof {
            assert(texts(items@.take(i + 1)) =~= texts(items@.take(i as int)).push(
                items@[i as int]@,
            ));
        }
        i += 1;
    }
    list
}

/// The one line `line`, as a list of lines.
pub fn one_line(line: &str) -> (lines: Vec<String>)
    ensures
        lines.deep_view() == seq![line@],
{
    let lines = [line];
    owned_texts(&lines)
}

/// No line at all.
pub fn no_lines() -> (lines: Vec<String>)
    ensures
        lines.deep_view() == Seq::<Seq<char>>::empty(),
{
    let lines: Vec<String> = Vec::new();
    lines
}

impl Request {
    /// The request to run `program` with `args`.
    pub fn run(program: &str, args: &[&str]) -> (request: Request)
        ensures
            request@ == run_request(program@, texts(args@)),
    {
        Request::Run { program: String::from_str(program), args: owned_texts(args) }
    }

    /// The request to create the directory at `path`.
    pub fn create_dir_all(path: &str) -> (request: Request)
        ensures
            request@ == (RequestView::CreateDirAll { path: path@ }),
    {
        Request::CreateDirAll { path: String::from_str(path) }
    }

    /// The request to write `content` to the file at `path`.
    pub fn write_file(path: &str, content: String) -> (request: Request)
        ensures
            request@ == (RequestView::WriteFile { path: path@, content: content@ }),
    {
        Request::WriteFile { path: String::from_str(path), content }
    }

    /// The request to delete the file at `path`.
    pub fn remove_file(path: &str) -> (request: Request)
        ensures
            request@ == (RequestView::RemoveFile { path: path@ }),
    {
        Request::RemoveFile { path: String::from_str(path) }
    }

    /// The request to look for `path`.
    pub fn path_exists(path: &str) -> (request: Request)
        ensures
            request@ == (RequestView::PathExists { path: path@ }),
    {
        Request::PathExists { path: String::from_str(path) }
    }
}

impl Turn {
    /// The turn that prints `lines` and asks for `request`.
    pub fn say_and_ask(lines: Vec<String>, request: Request, need: Need) -> (turn: Turn)
        ensures
            turn@ == say_and_ask(lines.deep_view(), request@, need),
    {
        Turn { lines, step: Step::Ask { request, need } }
    }

    /// The turn that asks for `request`, which must succeed.
    pub fn must(request: Request) -> (turn: Turn)
        ensures
            turn@ == must(request@),
    {
        Turn::say_and_ask(no_lines(), request, Need::MustSucceed)
    }

    /// The turn that asks for `request`, as far as it goes.
    pub fn attempt(request: Request) -> (turn: Turn)
        ensures
            turn@ == attempt(request@),
    {
        Turn::say_and_ask(no_lines(), request, Need::Attempt)
    }

    /// The turn that asks for `request` to learn from the reply.
    pub fn inquire(request: Request) -> (turn: Turn)
        ensures
            turn@ == inquire(request@),
    {
        Turn::say_and_ask(no_lines(), request, Need::Inquiry)
    }

    /// The turn that prints `lines` and ends the command with success.
    pub fn succeed(lines: Vec<String>) -> (turn: Turn)
        ensures
            turn@ == succeed(lines.deep_view()),
    {
        Turn { lines, step: Step::Finish(Ok(())) }
    }

    /// The turn that prints nothing and ends the command with `error`.
    pub fn fail(error: ServiceError) -> (turn: Turn)
        ensures
            turn@ == fail(error@),
    {
        Turn { lines: no_lines(), step: Step::Finish(Err(error)) }
    }

    /// The turn that prints `lines` and ends the command with `error`.
    pub fn say_and_fail(lines: Vec<String>, error: ServiceError) -> (turn: Turn)
        ensures
            turn@ == say_and_fail(lines.deep_view(), error@),
    {
        Turn { lines, step: Step::Finish(Err(error)) }
    }

    /// Whether the command is over with this turn.
    pub fn is_finished(&self) -> (finished: bool)
        ensures
            finished == (self@.step is Finish),
    {
        match &self.step {
            Step::Ask { .. } => false,
            Step::Finish(_) => true,
        }
    }
}

} // verus!
