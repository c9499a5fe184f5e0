//! The asynchronous "find nearest" analysis job: status classification and
//! the poll loop that drives a submitted job to a terminal state.
//!
//! The backend reports a job status as an opaque string; the engine folds it
//! into [`JobStatus`], where `Unknown` is a purely client-side reading of an
//! unrecognized report, never something the server states itself. A poll
//! loop then sleeps a fixed interval between status queries until the job
//! succeeds or fails for good.

use vstd::prelude::*;

verus! {

/// Milliseconds slept between two status queries of a pending job.
pub const POLL_INTERVAL_MS: u64 = 5000;

/// The classified status of an analysis job.
#[derive(Clone, Copy, Debug, PartialEq, Eq, Structural)]
pub enum JobStatus {
    Submitted,
    Running,
    Succeeded,
    Failed,
    TimedOut,
    Cancelled,
    Unknown,
}

/// The classification of a raw status report. Anything the engine does not
/// recognize counts as `Unknown`, and so stays pending.
pub open spec fn job_status_of(raw: Seq<char>) -> JobStatus {
    if raw == "esriJobSubmitted"@ {
        JobStatus::Submitted
    } else if raw == "esriJobExecuting"@ {
        JobStatus::Running
    } else if raw == "esriJobSucceeded"@ {
        JobStatus::Succeeded
    } else if raw == "esriJobFailed"@ {
        JobStatus::Failed
    } else if raw == "esriJobTimedOut"@ {
        JobStatus::TimedOut
    } else if raw == "esriJobCancelled"@ {
        JobStatus::Cancelled
    } else {
        JobStatus::Unknown
    }
}

/// Folds a raw backend status report into a [`JobStatus`].
pub fn parse_job_status(raw: &str) -> (r: JobStatus)
    ensures
        r == job_status_of(raw@),
{
    let s = raw.to_owned();
    if s == "esriJobSubmitted".to_owned() {
        JobStatus::Submitted
    } else if s == "esriJobExecuting".to_owned() {
        JobStatus::Running
    } else if s == "esriJobSucceeded".to_owned() {
        JobStatus::Succeeded
    } else if s == "esriJobFailed".to_owned() {
        JobStatus::Failed
    } else if s == "esriJobTimedOut".to_owned() {
        JobStatus::TimedOut
    } else if s == "esriJobCancelled".to_owned() {
        JobStatus::Cancelled
    } else {
        JobStatus::Unknown
    }
}

/// Whether a status is terminal: the job will never change it again.
pub open spec fn is_terminal_status(status: JobStatus) -> bool {
    match status {
        JobStatus::Succeeded => true,
        JobStatus::Failed => true,
        JobStatus::TimedOut => true,
        JobStatus::Cancelled => true,
        JobStatus::Submitted => false,
        JobStatus::Running => false,
        JobStatus::Unknown => false,
    }
}

/// Decides whether a status is terminal.
pub fn status_is_terminal(status: JobStatus) -> (r: bool)
    ensures
        r == is_terminal_status(status),
{
    match status {
        JobStatus::Succeeded => true,
        JobStatus::Failed => true,
        JobStatus::TimedOut => true,
        JobStatus::Cancelled => true,
        JobStatus::Submitted => false,
        JobStatus::Running => false,
        JobStatus::Unknown => false,
    }
}

/// What the poll loop does next after seeing a status.
#[derive(Clone, Copy, Debug, PartialEq, Eq, Structural)]
pub enum PollAction {
    /// The job succeeded: fetch the result city.
    FetchResult,
    /// The job ended without a result; the terminal status is carried along.
    ReportFailure(JobStatus),
    /// The job is still pending: sleep the fixed interval and query again.
    SleepThenPoll,
}

/// The action the poll loop takes on a status: fetch on success, give up on a
/// terminal failure, and sleep then query again on anything still pending.
pub open spec fn action_for_status(status: JobStatus) -> PollAction {
    match status {
        JobStatus::Succeeded => PollAction::FetchResult,
        JobStatus::Failed => PollAction::ReportFailure(JobStatus::Failed),
        JobStatus::TimedOut => PollAction::ReportFailure(JobStatus::TimedOut),
        JobStatus::Cancelled => PollAction::ReportFailure(JobStatus::Cancelled),
        JobStatus::Submitted => PollAction::SleepThenPoll,
        JobStatus::Running => PollAction::SleepThenPoll,
        JobStatus::Unknown => PollAction::SleepThenPoll,
    }
}

/// The state of one poll loop over a submitted job.
///
/// The host performs the sleeping and the status queries; the poller makes
/// every decision and accounts for how often the loop slept and how many
/// status reports it observed.
pub struct JobPoller {
    /// The opaque identifier the submission returned.
    pub job_id: String,
    /// The status reported last, starting with the submission's own.
    pub last_status: JobStatus,
    /// How many status reports the loop has observed after submission.
    pub polls: u64,
    /// How many times the loop decided to sleep before querying again.
    pub sleeps: u64,
}

impl JobPoller {
    /// Starts a poll loop over a freshly submitted job.
    pub fn new(job_id: String, initial_status: JobStatus) -> (p: JobPoller)
        ensures
            p.job_id == job_id,
            p.last_status == initial_status,
            p.polls == 0,
            p.sleeps == 0,
    {
        JobPoller { job_id, last_status: initial_status, polls: 0, sleeps: 0 }
    }

    /// The action to take on the status observed last.
    pub fn decide(&self) -> (a: PollAction)
        ensures
            a == action_for_status(self.last_status),
    {
        match self.last_status {
            JobStatus::Succeeded => PollAction::FetchResult,
            JobStatus::Failed => PollAction::ReportFailure(JobStatus::Failed),
            JobStatus::TimedOut => PollAction::ReportFailure(JobStatus::TimedOut),
            JobStatus::Cancelled => PollAction::ReportFailure(JobStatus::Cancelled),
            JobStatus::Submitted => PollAction::SleepThenPoll,
            JobStatus::Running => PollAction::SleepThenPoll,
            JobStatus::Unknown => PollAction::SleepThenPoll,
        }
    }

    /// One turn of the poll loop: take in a freshly queried status and decide
    /// what follows. A pending status costs one more sleep before the next
    /// query; a terminal status ends the loop, and a terminal poller accepts
    /// no further report.
    pub fn observe(&mut self, status: JobStatus) -> (a: PollAction)
        requires
            !is_terminal_status(old(self).last_status),
            old(self).polls < u64::MAX,
            old(self).sleeps < u64::MAX,
        ensures
            a == action_for_status(status),
            final(self).job_id == old(self).job_id,
            final(self).last_status == status,
            final(self).polls == old(self).polls + 1,
            final(self).sleeps == old(self).sleeps + (if a is SleepThenPoll {
                1int
            } else {
                0int
            }),
    {
        self.last_status = status;
        self.polls = self.polls + 1;
        let action = self.decide();
        if matches!(action, PollAction::SleepThenPoll) {
            self.sleeps = self.sleeps + 1;
        }
        action
    }
}

} // verus!
