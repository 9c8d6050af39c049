//! The observer that notes failures in the resilience log.
use vstd::prelude::*;
use crate::observability::traits::{ObserverEvent, ObserverMetric};
use crate::resilience::{
    log_with, optional_write, report_task, task_entry, tasks_path, FileWrite, Stored, WriteView,
};
use crate::text::concat2;

verus! {

/// Reports every failure it is told of to the resilience log of one workspace.
#[derive(Debug, Clone)]
pub struct ResilienceObserver {
    workspace_dir: String,
}

/// The title under which a failure of `component` is reported.
pub open spec fn error_title(component: Seq<char>) -> Seq<char> {
    "Observed Error in "@ + component
}

/// The detail with which the failure `message` is reported.
pub open spec fn error_detail(message: Seq<char>) -> Seq<char> {
    "Automated report from ResilienceObserver: "@ + message
}

impl ResilienceObserver {
    /// The workspace directory whose log this observer writes.
    pub closed spec fn workspace(&self) -> Seq<char> {
        self.workspace_dir@
    }

    /// The observer for the workspace in `workspace_dir`.
    pub fn new(workspace_dir: String) -> (observer: Self)
        ensures
            observer.workspace() == workspace_dir@,
    {
        Self { workspace_dir }
    }

    /// The workspace directory whose log this observer writes.
    pub fn workspace_dir(&self) -> (dir: &str)
        ensures
            dir@ == self.workspace(),
    {
        self.workspace_dir.as_str()
    }

    /// Takes note of `event` at the time `timestamp`, given what was `stored` as
    /// the resilience log: for a failure, the log is to be written with one more
    /// entry; for any other event, nothing is to be written.
    pub fn record_event(&self, event: &ObserverEvent, timestamp: &str, stored: &Stored) -> (write:
        Option<FileWrite>)
        ensures
            optional_write(write) == match event {
                ObserverEvent::Error { component, message } => Some(
                    WriteView {
                        path: tasks_path(self.workspace()),
                        content: log_with(
                            stored@,
                            task_entry(error_title(component@), error_detail(message@), timestamp@),
                        ),
                    },
                ),
                _ => None,
            },
    {
        match event {
            ObserverEvent::Error { component, message } => {
                let title = concat2("Observed Error in ", component.as_str());
                let detail = concat2(
                    "Automated report from ResilienceObserver: ",
                    message.as_str(),
                );
                Some(
                    report_task(
                        title.as_str(),
                        detail.as_str(),
                        timestamp,
                        self.workspace_dir.as_str(),
                        stored,
                    ),
                )
            },
            _ => None,
        }
    }

    /// Takes note of `metric`: measurements leave nothing to write.
    pub fn record_metric(&self, metric: &ObserverMetric) {
    }

    /// The name of this observer.
    pub fn name(&self) -> (name: &'static str)
        ensures
            name@ == "resilience"@,
    {
        "resilience"
    }
}

} // verus!
