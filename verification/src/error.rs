//! The recoverable errors the engine reports to its host.
//!
//! None of these is fatal: a sampling or setup error aborts session
//! creation, and a failed move leaves the session where it was, awaiting the
//! next command.

use vstd::prelude::*;

verus! {

use crate::job::JobStatus;

/// Why a backend interaction did not produce what the engine needed.
#[derive(Clone, Copy, Debug, PartialEq, Eq, Structural)]
pub enum GameError {
    /// A response lacked an expected field or carried a malformed value.
    BackendQuery,
    /// The transport failed: the backend could not be reached at all.
    BackendUnavailable,
    /// An analysis job ended in a terminal status other than success.
    JobFailed(JobStatus),
}

} // verus!
