//! Notes on failures, kept in the workspace directory.
//!
//! There are two. The crash notification is one JSON file, written when the
//! program crashes and taken away by the first start that finds it: it is read
//! at most once. The resilience log is a Markdown file that grows by one entry
//! for each incident and is never shortened.
//!
//! Nothing here reads or writes a file, nor reads the clock. The caller hands
//! over the time and what it found at a path, and is told what to write there.
use vstd::prelude::*;
use crate::json::{json_document, json_literal, parse, text_at, text_in, to_literal};
use crate::paths::{join, joined};
use crate::text::{contains, has_substring, optional_text, texts};

verus! {

/// What is known of the last crash.
#[derive(Debug, Clone, PartialEq, Eq)]
pub struct CrashInfo {
    /// When it happened, as an RFC 3339 date and time.
    pub timestamp: String,
    /// What went wrong.
    pub error: String,
}

/// [`CrashInfo`] as contracts speak of it: every text is the sequence of its
/// characters.
pub struct CrashView {
    pub timestamp: Seq<char>,
    pub error: Seq<char>,
}

impl View for CrashInfo {
    type V = CrashView;

    open spec fn view(&self) -> CrashView {
        CrashView { timestamp: self.timestamp@, error: self.error@ }
    }
}

/// A file to write, whole.
#[derive(Debug, Clone, PartialEq, Eq)]
pub struct FileWrite {
    /// Where to write.
    pub path: String,
    /// What the file is to hold.
    pub content: String,
}

/// [`FileWrite`] as contracts speak of it: every text is the sequence of its
/// characters.
pub struct WriteView {
    pub path: Seq<char>,
    pub content: Seq<char>,
}

impl View for FileWrite {
    type V = WriteView;

    open spec fn view(&self) -> WriteView {
        WriteView { path: self.path@, content: self.content@ }
    }
}

/// What the caller found at a path.
#[derive(Debug, Clone, PartialEq, Eq)]
pub enum Stored {
    /// Nothing is there.
    Missing,
    /// Something is there and cannot be read as text.
    Unreadable,
    /// The file and its text.
    Text(String),
}

/// [`Stored`] as contracts speak of it: every text is the sequence of its
/// characters.
pub enum StoredView {
    Missing,
    Unreadable,
    Text(Seq<char>),
}

impl View for Stored {
    type V = StoredView;

    open spec fn view(&self) -> StoredView {
        match self {
            Stored::Missing => StoredView::Missing,
            Stored::Unreadable => StoredView::Unreadable,
            Stored::Text(text) => StoredView::Text(text@),
        }
    }
}

/// The path of the crash notification in `workspace_dir`.
pub open spec fn crash_path(workspace_dir: Seq<char>) -> Seq<char> {
    joined(workspace_dir, "last_crash.json"@)
}

/// The path of the resilience log in `workspace_dir`.
pub open spec fn tasks_path(workspace_dir: Seq<char>) -> Seq<char> {
    joined(workspace_dir, "RESILIENCE_TASKS.md"@)
}

/// A JSON object of two members, `timestamp` and `error`, indented by two
/// spaces. The two values are given as they are to stand in the document.
pub open spec fn crash_object(timestamp: Seq<char>, error: Seq<char>) -> Seq<char> {
    "{\n  \"timestamp\": "@ + timestamp + ",\n  \"error\": "@ + error + "\n}"@
}

/// The crash notification as a JSON document. There is one if and only if each
/// of its two texts is written as a JSON string.
pub open spec fn crash_document(info: CrashView) -> Option<Seq<char>> {
    match (json_literal(info.timestamp), json_literal(info.error)) {
        (Some(timestamp), Some(error)) => Some(crash_object(timestamp, error)),
        _ => None,
    }
}

/// The crash notification that the texts `doc` of a JSON document describe:
/// there is one if the document holds a text under `timestamp` and one under
/// `error`.
pub open spec fn crash_in(doc: Map<Seq<Seq<char>>, Seq<char>>) -> Option<CrashView> {
    match (text_in(doc, seq!["timestamp"@]), text_in(doc, seq!["error"@])) {
        (Some(timestamp), Some(error)) => Some(CrashView { timestamp, error }),
        _ => None,
    }
}

/// The crash notification in `content`, if `content` is a JSON document that
/// holds one.
pub open spec fn parsed_crash(content: Seq<char>) -> Option<CrashView> {
    match json_document(content) {
        Some(doc) => crash_in(doc),
        None => None,
    }
}

/// Whether `document` is read back as the crash notification `info`.
pub open spec fn reads_back_as(document: Seq<char>, info: CrashView) -> bool {
    parsed_crash(document) == Some(info)
}

/// The file that notifies of the crash `error` at the time `timestamp`: the
/// crash notification of `workspace_dir`, holding the two texts as a JSON
/// document. There is one if and only if the document can be written and is
/// read back as the same two texts.
pub open spec fn crash_note_of(
    error: Seq<char>,
    timestamp: Seq<char>,
    workspace_dir: Seq<char>,
) -> Option<WriteView> {
    let info = CrashView { timestamp, error };
    match crash_document(info) {
        Some(content) => if reads_back_as(content, info) {
            Some(WriteView { path: crash_path(workspace_dir), content })
        } else {
            None
        },
        None => None,
    }
}

/// The view of an optional crash notification.
pub open spec fn optional_crash(info: Option<CrashInfo>) -> Option<CrashView> {
    match info {
        Some(info) => Some(info@),
        None => None,
    }
}

/// The view of an optional file to write.
pub open spec fn optional_write(write: Option<FileWrite>) -> Option<WriteView> {
    match write {
        Some(write) => Some(write@),
        None => None,
    }
}

/// The path of the crash notification in `workspace_dir`.
pub fn crash_file(workspace_dir: &str) -> (path: String)
    ensures
        path@ == crash_path(workspace_dir@),
{
    join(workspace_dir, "last_crash.json")
}

/// The path of the resilience log in `workspace_dir`.
pub fn tasks_file(workspace_dir: &str) -> (path: String)
    ensures
        path@ == tasks_path(workspace_dir@),
{
    join(workspace_dir, "RESILIENCE_TASKS.md")
}

/// Puts the two members of a crash notification together, each given as the
/// JSON string that was made of it. There is a document if and only if both
/// strings could be made.
pub fn crash_object_of(
    timestamp: Result<String, serde_json::Error>,
    error: Result<String, serde_json::Error>,
) -> (document: Option<String>)
    ensures
        match (timestamp, error) {
            (Ok(timestamp), Ok(error)) => document matches Some(text) && text@ == crash_object(
                timestamp@,
                error@,
            ),
            _ => document is None,
        },
{
    match (timestamp, error) {
        (Ok(timestamp), Ok(error)) => {
            let mut text = String::from_str("{\n  \"timestamp\": ");
            text.append(timestamp.as_str());
            text.append(",\n  \"error\": ");
            text.append(error.as_str());
            text.append("\n}");
            Some(text)
        },
        _ => None,
    }
}

/// Writes `info` as a JSON document: an object of the two members `timestamp`
/// and `error`, each written as a JSON string. There is none if and only if
/// one of the two texts could not be written as a JSON string.
pub fn crash_json(info: &CrashInfo) -> (document: Option<String>)
    ensures
        optional_text(document) == crash_document(info@),
{
    let timestamp = to_literal(info.timestamp.as_str());
    let error = to_literal(info.error.as_str());
    crash_object_of(timestamp, error)
}

/// Reads a crash notification from the text of its file.
pub fn parse_crash(content: &str) -> (info: Option<CrashInfo>)
    ensures
        optional_crash(info) == parsed_crash(content@),
{
    let json = match parse(content) {
        Ok(json) => json,
        Err(_) => {
            return None;
        },
    };
    let timestamp_path = ["timestamp"];
    let error_path = ["error"];
    proof {
        assert(texts(timestamp_path@) =~= seq!["timestamp"@]);
        assert(texts(error_path@) =~= seq!["error"@]);
    }
    match (text_at(&json, &timestamp_path), text_at(&json, &error_path)) {
        (Some(timestamp), Some(error)) => Some(CrashInfo { timestamp, error }),
        _ => None,
    }
}

/// Records a crash: the notification for `error` at the time `timestamp`, as
/// the file to write in `workspace_dir`. Before the file is handed out, its
/// text is read back: nothing is to be written unless the notification can be
/// written as JSON and a later start will find the same two texts in it.
pub fn record_crash(error: &str, timestamp: &str, workspace_dir: &str) -> (note: Option<FileWrite>)
    ensures
        optional_write(note) == crash_note_of(error@, timestamp@, workspace_dir@),
{
    let info = CrashInfo { timestamp: String::from_str(timestamp), error: String::from_str(error) };
    let content = match crash_json(&info) {
        Some(content) => content,
        None => {
            return None;
        },
    };
    match parse_crash(content.as_str()) {
        Some(back) => {
            if back.timestamp == info.timestamp && back.error == info.error {
                Some(FileWrite { path: crash_file(workspace_dir), content })
            } else {
                None
            }
        },
        None => None,
    }
}

/// What became of the crash notification.
#[derive(Debug, Clone, PartialEq, Eq)]
pub struct Consumed {
    /// The notification, if the file held one.
    pub info: Option<CrashInfo>,
    /// Whether the file is to be deleted: it is, once it was read.
    pub delete: bool,
}

/// The notification that a start finds in what is `stored` at the path of the
/// crash notification.
pub open spec fn consumed_crash(stored: StoredView) -> Option<CrashView> {
    match stored {
        StoredView::Text(content) => parsed_crash(content),
        _ => None,
    }
}

/// What is left at the path of the crash notification once a start has
/// consumed what was `stored` there: a file that was read is gone.
pub open spec fn left_by_consume(stored: StoredView) -> StoredView {
    match stored {
        StoredView::Text(_) => StoredView::Missing,
        other => other,
    }
}

/// A crash notification is read at most once: whatever was stored, a start
/// that comes after another finds no notification, and nothing to delete.
pub proof fn lemma_crash_is_consumed_once(stored: StoredView)
    ensures
        consumed_crash(left_by_consume(stored)) is None,
        left_by_consume(left_by_consume(stored)) == left_by_consume(stored),
{
}

/// A crash that was recorded is found by the next start, and by no other: the
/// start that consumes the file that `record_crash` gave finds the error and
/// the time that were recorded, and the start that comes after it finds
/// nothing.
pub proof fn lemma_crash_round_trip(
    error: Seq<char>,
    timestamp: Seq<char>,
    workspace_dir: Seq<char>,
)
    requires
        crash_note_of(error, timestamp, workspace_dir) is Some,
    ensures
        ({
            let stored = StoredView::Text(crash_note_of(error, timestamp, workspace_dir)->0.content);
            &&& consumed_crash(stored) == Some(CrashView { timestamp, error })
            &&& consumed_crash(left_by_consume(stored)) is None
        }),
{
}

/// Consumes the crash notification, given what was `stored` at its path. A
/// file that could be read is to be deleted, whatever it held, so that no
/// later start sees it; its notification is returned if it holds one. If
/// nothing is there, or nothing that can be read, there is no notification and
/// nothing to delete.
pub fn consume_crash(stored: &Stored) -> (consumed: Consumed)
    ensures
        optional_crash(consumed.info) == consumed_crash(stored@),
        consumed.delete == (left_by_consume(stored@) != stored@),
{
    match stored {
        Stored::Text(content) => Consumed { info: parse_crash(content.as_str()), delete: true },
        _ => Consumed { info: None, delete: false },
    }
}

/// What a new resilience log begins with.
pub open spec fn tasks_header() -> Seq<char> {
    "# Resilience Tasks\n\nThis file tracks critical failures and auto-recovery events.\n"@
}

/// The class of an incident: fatal if its detail says so, else recovered.
pub open spec fn incident_class(detail: Seq<char>) -> Seq<char> {
    if has_substring(detail, "fatal"@) {
        "FATAL"@
    } else {
        "RECOVERY"@
    }
}

/// The entry of an incident in the resilience log.
pub open spec fn task_entry(title: Seq<char>, detail: Seq<char>, timestamp: Seq<char>) -> Seq<
    char,
> {
    "\n## ["@ + incident_class(detail) + "] "@ + title + "\n\n- **Time**: "@ + timestamp
        + "\n- **Detail**: "@ + detail + "\n\n---"@
}

/// What the log holds before an entry is added: its text; the header where
/// there is no log yet; nothing where the log cannot be read.
pub open spec fn log_so_far(stored: StoredView) -> Seq<char> {
    match stored {
        StoredView::Missing => tasks_header(),
        StoredView::Unreadable => Seq::empty(),
        StoredView::Text(text) => text,
    }
}

/// The log after `entry` is added to what was `stored`.
pub open spec fn log_with(stored: StoredView, entry: Seq<char>) -> Seq<char> {
    log_so_far(stored) + entry
}

/// Two incidents reported one after the other, the first to a log that is not
/// there yet, leave a log of one header and the two entries, in the order in
/// which they were reported.
pub proof fn lemma_two_reports(first: Seq<char>, second: Seq<char>)
    ensures
        log_with(StoredView::Text(log_with(StoredView::Missing, first)), second) == tasks_header()
            + first + second,
{
}

/// Every report adds its entry at the end of a log that can be read, and
/// changes nothing of what was there.
pub proof fn lemma_log_only_grows(log: Seq<char>, entry: Seq<char>)
    ensures
        log_with(StoredView::Text(log), entry).take(log.len() as int) == log,
        log_with(StoredView::Text(log), entry).skip(log.len() as int) == entry,
{
}

/// Writes the entry of an incident.
pub fn build_task_entry(title: &str, detail: &str, timestamp: &str) -> (entry: String)
    ensures
        entry@ == task_entry(title@, detail@, timestamp@),
{
    let mut entry = String::from_str("\n## [");
    if contains(detail, "fatal") {
        entry.append("FATAL");
    } else {
        entry.append("RECOVERY");
    }
    entry.append("] ");
    entry.append(title);
    entry.append("\n\n- **Time**: ");
    entry.append(timestamp);
    entry.append("\n- **Detail**: ");
    entry.append(detail);
    entry.append("\n\n---");
    entry
}

/// Reports an incident at the time `timestamp`: the resilience log of
/// `workspace_dir` as it is to be written, given what was `stored` there, with
/// the entry of the incident at its end.
pub fn report_task(
    title: &str,
    detail: &str,
    timestamp: &str,
    workspace_dir: &str,
    stored: &Stored,
) -> (write: FileWrite)
    ensures
        write@ == (WriteView {
            path: tasks_path(workspace_dir@),
            content: log_with(stored@, task_entry(title@, detail@, timestamp@)),
        }),
{
    let mut content = match stored {
        Stored::Missing => String::from_str(
            "# Resilience Tasks\n\nThis file tracks critical failures and auto-recovery events.\n",
        ),
        Stored::Unreadable => String::new(),
        Stored::Text(text) => text.clone(),
    };
    let entry = build_task_entry(title, detail, timestamp);
    content.append(entry.as_str());
    FileWrite { path: tasks_file(workspace_dir), content }
}

} // verus!
