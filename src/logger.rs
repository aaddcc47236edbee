//! Log records: their severity, their text, and the line written for each.

use vstd::prelude::*;
use crate::config::RepositoryTarget;
use crate::sync::{FailureCause, SkipReason, SyncOutcome};

verus! {

/// A log record, by severity, with its message.
pub enum EventType {
    /// Information.
    I(String),
    /// Warning.
    W(String),
    /// Notice.
    N(String),
    /// Error.
    E(String),
}

/// The marker written for a record's severity.
pub open spec fn prefix_of(e: EventType) -> Seq<char> {
    match e {
        EventType::I(_) => "[I]"@,
        EventType::W(_) => "[W]"@,
        EventType::N(_) => "[!!]"@,
        EventType::E(_) => "[E]"@,
    }
}

/// The message of a record.
pub open spec fn message_of(e: EventType) -> Seq<char> {
    match e {
        EventType::I(m) => m@,
        EventType::W(m) => m@,
        EventType::N(m) => m@,
        EventType::E(m) => m@,
    }
}

/// The line written for record `e` at time `datetime`.
pub open spec fn line_of(datetime: Seq<char>, e: EventType) -> Seq<char> {
    datetime + " - "@ + prefix_of(e) + " - "@ + message_of(e)
}

impl EventType {
    /// The marker written for this record's severity.
    pub fn prefix(&self) -> (r: &'static str)
        ensures
            r@ == prefix_of(*self),
    {
        match self {
            EventType::I(_) => "[I]",
            EventType::W(_) => "[W]",
            EventType::N(_) => "[!!]",
            EventType::E(_) => "[E]",
        }
    }

    /// The message of this record.
    pub fn message(&self) -> (r: &str)
        ensures
            r@ == message_of(*self),
    {
        match self {
            EventType::I(m) => m.as_str(),
            EventType::W(m) => m.as_str(),
            EventType::N(m) => m.as_str(),
            EventType::E(m) => m.as_str(),
        }
    }
}

/// The line written for `event` at time `datetime`:
/// `<datetime> - <marker> - <message>`.
pub fn log_line(datetime: &str, event: &EventType) -> (r: String)
    ensures
        r@ == line_of(datetime@, *event),
{
    let mut s = datetime.to_owned();
    s.append(" - ");
    s.append(event.prefix());
    s.append(" - ");
    s.append(event.message());
    s
}

/// Relies on chrono's Local::now and its `format`: the local date and time
/// now, as `YYYY-MM-DD HH:MM:SS`. What it returns depends on the clock.
#[verifier::external_body]
fn get_task_datetime() -> (r: String) {
    chrono::Local::now().format("%Y-%m-%d %H:%M:%S").to_string()
}

/// The line written for `event`, stamped with the local date and time now.
pub fn stamped_line(event: &EventType) -> (r: String)
    ensures
        exists|d: Seq<char>| r@ == #[trigger] line_of(d, *event),
{
    let now = get_task_datetime();
    log_line(now.as_str(), event)
}

/// Severity that outcome `o` is logged with: error for a failure, warning for
/// a diverged branch, information otherwise.
pub open spec fn severity_fits(o: SyncOutcome, e: EventType) -> bool {
    match o {
        SyncOutcome::Failed(_) => e is E,
        SyncOutcome::Skipped(SkipReason::NonFastForward) => e is W,
        _ => e is I,
    }
}

/// Words for a failure cause.
pub open spec fn cause_text(c: FailureCause) -> Seq<char> {
    match c {
        FailureCause::NotARepository => "not a repository"@,
        FailureCause::RemoteUnreachable => "remote unreachable"@,
        FailureCause::RefMissing => "branch reference missing"@,
        FailureCause::ReferenceUpdateConflict => "reference update conflict"@,
        FailureCause::CheckoutFailure => "checkout failure"@,
    }
}

/// The message logged for outcome `o` of the repository at `path` on `branch`.
pub open spec fn outcome_text(o: SyncOutcome, path: Seq<char>, branch: Seq<char>) -> Seq<char> {
    match o {
        SyncOutcome::NoUpdate => "No recent updates on this repo."@,
        SyncOutcome::Updated => "Pulling recent updates for repo: "@ + path
            + " found in the branch: "@ + branch,
        SyncOutcome::Skipped(SkipReason::PathNotFound) => "Folder "@ + path
            + " does not exist."@,
        SyncOutcome::Skipped(SkipReason::NonFastForward) => "Branch "@ + branch + " of "@ + path
            + " has diverged from its remote - skipping updates."@,
        SyncOutcome::Failed(c) => "Synchronizing "@ + path + " failed: "@ + cause_text(c)
            + " - skipping updates."@,
    }
}

/// Words for a failure cause.
pub fn cause_words(c: FailureCause) -> (r: &'static str)
    ensures
        r@ == cause_text(c),
{
    match c {
        FailureCause::NotARepository => "not a repository",
        FailureCause::RemoteUnreachable => "remote unreachable",
        FailureCause::RefMissing => "branch reference missing",
        FailureCause::ReferenceUpdateConflict => "reference update conflict",
        FailureCause::CheckoutFailure => "checkout failure",
    }
}

/// The record logged when a pass over `target` ends with `outcome`.
pub fn outcome_record(outcome: SyncOutcome, target: &RepositoryTarget) -> (r: EventType)
    ensures
        severity_fits(outcome, r),
        message_of(r) == outcome_text(outcome, target.local_path@, target.branch_name@),
{
    let path = target.local_path.as_str();
    let branch = target.branch_name.as_str();
    match outcome {
        SyncOutcome::NoUpdate => EventType::I("No recent updates on this repo.".to_owned()),
        SyncOutcome::Updated => {
            let mut s = "Pulling recent updates for repo: ".to_owned();
            s.append(path);
            s.append(" found in the branch: ");
            s.append(branch);
            EventType::I(s)
        },
        SyncOutcome::Skipped(SkipReason::PathNotFound) => {
            let mut s = "Folder ".to_owned();
            s.append(path);
            s.append(" does not exist.");
            EventType::I(s)
        },
        SyncOutcome::Skipped(SkipReason::NonFastForward) => {
            let mut s = "Branch ".to_owned();
            s.append(branch);
            s.append(" of ");
            s.append(path);
            s.append(" has diverged from its remote - skipping updates.");
            EventType::W(s)
        },
        SyncOutcome::Failed(c) => {
            let mut s = "Synchronizing ".to_owned();
            s.append(path);
            s.append(" failed: ");
            s.append(cause_words(c));
            s.append(" - skipping updates.");
            EventType::E(s)
        },
    }
}

/// The record logged when a pass over `target` starts.
pub fn start_record(target: &RepositoryTarget) -> (r: EventType)
    ensures
        r is I,
        message_of(r) == "Inspecting folder for a GitHub repo: "@ + target.local_path@,
{
    let mut s = "Inspecting folder for a GitHub repo: ".to_owned();
    s.append(target.local_path.as_str());
    EventType::I(s)
}

} // verus!
