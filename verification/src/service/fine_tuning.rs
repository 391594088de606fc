//! Request construction for the fine-tuning endpoint.

use vstd::prelude::*;

verus! {

/// The path of one fine-tuning job.
pub fn fine_tuning_job_path(job_id: &str) -> (r: String)
    ensures
        r@ == "/fine_tuning/jobs/"@ + job_id@,
{
    String::from_str("/fine_tuning/jobs/").concat(job_id)
}

/// The path that cancels one fine-tuning job.
pub fn fine_tuning_job_cancel_path(job_id: &str) -> (r: String)
    ensures
        r@ == "/fine_tuning/jobs/"@ + job_id@ + "/cancel"@,
{
    String::from_str("/fine_tuning/jobs/").concat(job_id).concat("/cancel")
}

/// The path of one fine-tuning job's events.
pub fn fine_tuning_job_events_path(job_id: &str) -> (r: String)
    ensures
        r@ == "/fine_tuning/jobs/"@ + job_id@ + "/events"@,
{
    String::from_str("/fine_tuning/jobs/").concat(job_id).concat("/events")
}

/// The path of one fine-tuning job's checkpoints.
pub fn fine_tuning_job_checkpoints_path(job_id: &str) -> (r: String)
    ensures
        r@ == "/fine_tuning/jobs/"@ + job_id@ + "/checkpoints"@,
{
    String::from_str("/fine_tuning/jobs/").concat(job_id).concat("/checkpoints")
}

} // verus!
