use wanderer::job::parse_job_status;
use wanderer::job::status_is_terminal;
use wanderer::job::JobPoller;
use wanderer::job::JobStatus;
use wanderer::job::PollAction;
use wanderer::job::POLL_INTERVAL_MS;

#[test]
fn poll_interval_is_five_seconds() {
    assert_eq!(POLL_INTERVAL_MS, 5000);
}

#[test]
fn backend_status_reports_are_classified() {
    assert_eq!(parse_job_status("esriJobSubmitted"), JobStatus::Submitted);
    assert_eq!(parse_job_status("esriJobExecuting"), JobStatus::Running);
    assert_eq!(parse_job_status("esriJobSucceeded"), JobStatus::Succeeded);
    assert_eq!(parse_job_status("esriJobFailed"), JobStatus::Failed);
    assert_eq!(parse_job_status("esriJobTimedOut"), JobStatus::TimedOut);
    assert_eq!(parse_job_status("esriJobCancelled"), JobStatus::Cancelled);
}

#[test]
fn unrecognized_status_reports_stay_pending() {
    assert_eq!(parse_job_status("esriJobWaiting"), JobStatus::Unknown);
    assert_eq!(parse_job_status(""), JobStatus::Unknown);
    assert_eq!(parse_job_status("ESRIJOBSUCCEEDED"), JobStatus::Unknown);
    assert!(!status_is_terminal(JobStatus::Unknown));
}

#[test]
fn terminal_statuses_are_exactly_the_four_final_ones() {
    assert!(status_is_terminal(JobStatus::Succeeded));
    assert!(status_is_terminal(JobStatus::Failed));
    assert!(status_is_terminal(JobStatus::TimedOut));
    assert!(status_is_terminal(JobStatus::Cancelled));
    assert!(!status_is_terminal(JobStatus::Submitted));
    assert!(!status_is_terminal(JobStatus::Running));
    assert!(!status_is_terminal(JobStatus::Unknown));
}

#[test]
fn poll_loop_sleeps_once_per_pending_status() {
    // The job reports Running, Running, Succeeded across three polls:
    // exactly two sleeps, then the result is fetched and the loop is over.
    let mut poller = JobPoller::new(String::from("job-1"), JobStatus::Submitted);
    assert_eq!(poller.decide(), PollAction::SleepThenPoll);

    assert_eq!(poller.observe(JobStatus::Running), PollAction::SleepThenPoll);
    assert_eq!(poller.observe(JobStatus::Running), PollAction::SleepThenPoll);
    assert_eq!(poller.observe(JobStatus::Succeeded), PollAction::FetchResult);

    assert_eq!(poller.polls, 3);
    assert_eq!(poller.sleeps, 2);
    assert_eq!(poller.last_status, JobStatus::Succeeded);
    // The status is terminal: the loop polls no further.
    assert!(status_is_terminal(poller.last_status));
    assert_eq!(poller.decide(), PollAction::FetchResult);
}

#[test]
fn failed_job_reports_its_terminal_status() {
    let mut poller = JobPoller::new(String::from("job-2"), JobStatus::Submitted);
    assert_eq!(
        poller.observe(JobStatus::TimedOut),
        PollAction::ReportFailure(JobStatus::TimedOut)
    );
    assert_eq!(poller.sleeps, 0);
    assert!(status_is_terminal(poller.last_status));
}

#[test]
fn unknown_status_keeps_the_loop_polling() {
    let mut poller = JobPoller::new(String::from("job-3"), JobStatus::Submitted);
    assert_eq!(poller.observe(JobStatus::Unknown), PollAction::SleepThenPoll);
    assert_eq!(poller.observe(JobStatus::Succeeded), PollAction::FetchResult);
    assert_eq!(poller.sleeps, 1);
    assert_eq!(poller.polls, 2);
}
