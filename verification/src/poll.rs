use vstd::prelude::*;

use crate::api::{base_of, text_of_member, ApiClient};
use crate::error::CliError;
use crate::json::{member_or_whole, take_member_or_whole, Json};
use crate::text::str_eq;

verus! {

/// What to do after reading a task's status.
#[derive(Debug)]
pub enum PollStep {
    /// The task is COMPLETED: read its result at `url`.
    FetchResult { url: String },
    /// The task is still running: wait `secs` seconds and read the status again.
    Sleep { secs: u64 },
    /// Stop waiting, with this error.
    Stop(CliError),
}

/// The wait between two status reads: the interval asked for, but at least one second.
pub open spec fn effective_interval(poll_interval_secs: u64) -> u64 {
    if poll_interval_secs < 1 {
        1
    } else {
        poll_interval_secs
    }
}

/// The time allowed has run out once `elapsed_nanos` reaches `max_wait_secs` seconds.
pub open spec fn timed_out(elapsed_nanos: u128, max_wait_secs: u64) -> bool {
    elapsed_nanos >= max_wait_secs * 1_000_000_000
}

/// The wait between two status reads: at least one second.
pub fn effective_poll_interval(poll_interval_secs: u64) -> (r: u64)
    ensures
        r == effective_interval(poll_interval_secs),
{
    if poll_interval_secs < 1 {
        1
    } else {
        poll_interval_secs
    }
}

/// Decides, from the status document of task `task_id` and the time spent so far, whether
/// to fetch the result, give up, or wait and ask again.
pub fn next_poll_step(
    api: &ApiClient,
    task_id: &str,
    status: Json,
    elapsed_nanos: u128,
    max_wait_secs: u64,
    poll_interval_secs: u64,
) -> (r: PollStep)
    ensures
        text_of_member(status, "status"@) == Some("COMPLETED"@) ==> (r matches PollStep::FetchResult {
            url,
        } && url@ == base_of(api.base_url@) + "/v2/requests/"@ + task_id@),
        text_of_member(status, "status"@) == Some("FAILED"@) ==> (r matches PollStep::Stop(
            CliError::TaskFailed { detail },
        ) && detail == member_or_whole(status, "error"@)),
        text_of_member(status, "status"@) != Some("COMPLETED"@) && text_of_member(
            status,
            "status"@,
        ) != Some("FAILED"@) ==> {
            if timed_out(elapsed_nanos, max_wait_secs) {
                r matches PollStep::Stop(CliError::TaskTimedOut { task_id: t, max_wait_secs: w })
                    && t@ == task_id@ && w == max_wait_secs
            } else {
                r matches PollStep::Sleep { secs } && secs == effective_interval(poll_interval_secs)
            }
        },
{
    let state: u8 = match status.get("status") {
        Some(s) => match s.as_str() {
            Some(t) => if str_eq(t, "COMPLETED") {
                1
            } else if str_eq(t, "FAILED") {
                2
            } else {
                0
            },
            None => 0,
        },
        None => 0,
    };
    proof {
        reveal_strlit("COMPLETED");
        reveal_strlit("FAILED");
        assert("COMPLETED"@.len() != "FAILED"@.len());
    }
    if state == 1 {
        PollStep::FetchResult { url: api.response_url(task_id) }
    } else if state == 2 {
        PollStep::Stop(CliError::TaskFailed { detail: take_member_or_whole(status, "error") })
    } else if elapsed_nanos >= (max_wait_secs as u128) * 1_000_000_000 {
        PollStep::Stop(
            CliError::TaskTimedOut { task_id: task_id.to_owned(), max_wait_secs: max_wait_secs },
        )
    } else {
        PollStep::Sleep { secs: effective_poll_interval(poll_interval_secs) }
    }
}

} // verus!
