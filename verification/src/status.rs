//! The shared sync status record and the cycle completion step.
//!
//! Exactly one record exists per process; every sync cycle ends by
//! replacing it atomically through [`complete_cycle`].  A successful
//! cycle rewrites the whole record; a failed cycle only sets the error
//! and the run timestamp, preserving the record of the last successful
//! apply.

use vstd::prelude::*;

verus! {

/// The most recent sync outcome, readable at any time.
pub struct SyncStatus {
    pub last_url: Option<String>,
    pub last_saved_path: Option<String>,
    pub last_result: Option<String>,
    pub last_error: Option<String>,
    pub last_run: Option<String>,
}

/// Mathematical view of a status record: each field as an optional
/// character sequence.
pub struct StatusView {
    pub last_url: Option<Seq<char>>,
    pub last_saved_path: Option<Seq<char>>,
    pub last_result: Option<Seq<char>>,
    pub last_error: Option<Seq<char>>,
    pub last_run: Option<Seq<char>>,
}

pub open spec fn opt_view(o: Option<String>) -> Option<Seq<char>> {
    match o {
        Option::Some(s) => Option::Some(s@),
        Option::None => Option::None,
    }
}

impl View for SyncStatus {
    type V = StatusView;

    open spec fn view(&self) -> StatusView {
        StatusView {
            last_url: opt_view(self.last_url),
            last_saved_path: opt_view(self.last_saved_path),
            last_result: opt_view(self.last_result),
            last_error: opt_view(self.last_error),
            last_run: opt_view(self.last_run),
        }
    }
}

impl SyncStatus {
    /// At process start every field is empty.
    pub fn empty() -> (r: SyncStatus)
        ensures
            r.last_url is None,
            r.last_saved_path is None,
            r.last_result is None,
            r.last_error is None,
            r.last_run is None,
    {
        SyncStatus {
            last_url: Option::None,
            last_saved_path: Option::None,
            last_result: Option::None,
            last_error: Option::None,
            last_run: Option::None,
        }
    }

    /// A snapshot of the record, equal to it field by field.
    pub fn snapshot(&self) -> (r: SyncStatus)
        ensures
            r@ == self@,
    {
        SyncStatus {
            last_url: clone_opt_string(&self.last_url),
            last_saved_path: clone_opt_string(&self.last_saved_path),
            last_result: clone_opt_string(&self.last_result),
            last_error: clone_opt_string(&self.last_error),
            last_run: clone_opt_string(&self.last_run),
        }
    }
}

fn clone_opt_string(o: &Option<String>) -> (r: Option<String>)
    ensures
        opt_view(r) == opt_view(*o),
{
    match o {
        Option::Some(s) => Option::Some(s.clone()),
        Option::None => Option::None,
    }
}

/// The distinct failure points of a sync cycle.  Every variant carries
/// the human-readable message that is recorded and surfaced; callers
/// treat the message as opaque text.
#[derive(Debug)]
pub enum SyncError {
    /// Timeout, connection failure, non-success HTTP status, or a body
    /// that could not be decoded.
    Network { message: String },
    /// The metadata response parsed but did not hold the expected
    /// first image entry with a `url` field.
    ResponseShape { message: String },
    /// Cache directory creation or file write failure.
    Filesystem { message: String },
    /// OS-level apply failure, or an unsupported platform.
    Applicator { message: String },
}

pub open spec fn error_message(e: SyncError) -> String {
    match e {
        SyncError::Network { message } => message,
        SyncError::ResponseShape { message } => message,
        SyncError::Filesystem { message } => message,
        SyncError::Applicator { message } => message,
    }
}

impl SyncError {
    /// The recorded message of this error.
    pub fn message(&self) -> (m: &String)
        ensures
            *m == error_message(*self),
    {
        match self {
            SyncError::Network { message } => message,
            SyncError::ResponseShape { message } => message,
            SyncError::Filesystem { message } => message,
            SyncError::Applicator { message } => message,
        }
    }
}

/// What a finished cycle reports: either every ingredient of a fresh
/// status record, or the error to be recorded.
pub enum CycleOutcome {
    Success { url: String, saved_path: String, message: String },
    Failure { error: SyncError },
}

/// The status record that a finishing cycle writes, as a function of
/// the record it found, the outcome and the completion time.  A
/// success determines the whole record; a failure changes only
/// `last_error` and `last_run`.
pub open spec fn after_cycle(prev: SyncStatus, outcome: CycleOutcome, now: String) -> SyncStatus {
    match outcome {
        CycleOutcome::Success { url, saved_path, message } => SyncStatus {
            last_url: Option::Some(url),
            last_saved_path: Option::Some(saved_path),
            last_result: Option::Some(message),
            last_error: Option::None,
            last_run: Option::Some(now),
        },
        CycleOutcome::Failure { error } => SyncStatus {
            last_url: prev.last_url,
            last_saved_path: prev.last_saved_path,
            last_result: prev.last_result,
            last_error: Option::Some(error_message(error)),
            last_run: Option::Some(now),
        },
    }
}

/// Step 7/8 of a cycle: replace the shared record in one move.
pub fn complete_cycle(status: &mut SyncStatus, outcome: CycleOutcome, now: String)
    ensures
        *final(status) == after_cycle(*old(status), outcome, now),
{
    match outcome {
        CycleOutcome::Success { url, saved_path, message } => {
            *status = SyncStatus {
                last_url: Option::Some(url),
                last_saved_path: Option::Some(saved_path),
                last_result: Option::Some(message),
                last_error: Option::None,
                last_run: Option::Some(now),
            };
        },
        CycleOutcome::Failure { error } => {
            let message = match error {
                SyncError::Network { message } => message,
                SyncError::ResponseShape { message } => message,
                SyncError::Filesystem { message } => message,
                SyncError::Applicator { message } => message,
            };
            status.last_error = Option::Some(message);
            status.last_run = Option::Some(now);
        },
    }
}

/// A failed cycle never erases the record of the last successful
/// apply: the record it writes keeps `last_url`, `last_saved_path` and
/// `last_result` exactly as it found them, and changes only
/// `last_error` and `last_run`.
pub proof fn lemma_failure_preserves_success(
    prev: SyncStatus,
    error: SyncError,
    now: String,
)
    ensures
        after_cycle(prev, CycleOutcome::Failure { error }, now).last_url == prev.last_url,
        after_cycle(prev, CycleOutcome::Failure { error }, now).last_saved_path
            == prev.last_saved_path,
        after_cycle(prev, CycleOutcome::Failure { error }, now).last_result == prev.last_result,
        after_cycle(prev, CycleOutcome::Failure { error }, now).last_error
            == Option::Some(error_message(error)),
        after_cycle(prev, CycleOutcome::Failure { error }, now).last_run == Option::Some(now),
{
}

/// Overlapping cycles race on the shared record and the last writer
/// wins whole: the final record is `after_cycle` of the last outcome
/// alone, and a successful outcome determines every field of it
/// independently of whatever record the earlier cycle left behind, so
/// no record ever mixes fields of two cycles.
pub proof fn lemma_last_writer_wins(
    s1: SyncStatus,
    s2: SyncStatus,
    outcome: CycleOutcome,
    now: String,
)
    ensures
        outcome is Success ==> after_cycle(s1, outcome, now) == after_cycle(s2, outcome, now),
{
}

} // verus!
