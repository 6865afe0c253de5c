//! Requests to cancel a task.
//!
//! - **Pending / Scheduled**: the queue job is removed and a terminal
//!   `Cancelled` record is written, *before* the removal, so that a concurrent
//!   request for the result sees it the instant the removal is signalled.
//! - **Claimed (a worker is running the tool)**: the worker is asked to stop. A
//!   tool that watches for it short-circuits; one that does not runs to
//!   completion. Either way the worker writes the record, so none is written
//!   here.
//! - **Terminal / unknown**: there is nothing to cancel.
use crate::audit;
use crate::audit::{AuditEntry, AuditEvent};
use crate::backend::TaqubaTaskBackend;
use crate::error::Error;
use crate::in_flight;
use crate::in_flight::{InFlight, InFlightInfoView};
use crate::location;
use crate::protocol;
use crate::protocol::{McpError, McpErrorView, Task, TaskAnswer, TaskStatus, TaskView};
use crate::queue;
use crate::queue::{CancelOutcome, JobRecord, JobStatus, JobView};
use crate::result_store;
use crate::result_store::{ResultRecord, ResultRecordView};
use crate::text;
use crate::time;
use crate::worker;
use crate::worker::JobAction;
use std::time::Duration;
use taquba::object_store::path::Path;
use vstd::prelude::*;

verus! {

/// The tool that a task cancelled before it ran is recorded under: the one that
/// the index remembers, or else the one that the job's headers name, or none.
pub open spec fn cancelled_tool(remembered: Option<InFlightInfoView>, job: JobView) -> Seq<char> {
    match remembered {
        Some(info) => info.tool,
        None => requested_tool(job),
    }
}

/// The tool that the job's headers name, or none.
pub open spec fn requested_tool(job: JobView) -> Seq<char> {
    match job.tool_header() {
        Some(tool) => tool,
        None => Seq::empty(),
    }
}

/// What the client is told of a task that it cancelled.
pub open spec fn cancelled_task(
    task_id: Seq<char>,
    message: Option<Seq<char>>,
    ttl: Option<u64>,
    now: Seq<char>,
) -> TaskView {
    protocol::task_just_now(task_id, TaskStatus::Cancelled, message, ttl, now)
}

/// What the client is told where the worker was asked to stop.
pub open spec fn cancellation_requested() -> Seq<char> {
    "cancellation requested; the tool may still be finishing"@
}

/// The answer for a task that the queue could not cancel: one that has a record
/// is in a terminal state, one that has none is not found.
pub open spec fn refusal(
    task_id: Seq<char>,
    record: Result<Option<ResultRecordView>, Seq<char>>,
) -> McpErrorView {
    match record {
        Err(why) => protocol::internal_error("result store read failed: "@, why),
        Ok(Some(record)) => protocol::invalid_request(
            "task is already in terminal state: "@,
            result_store::reported_status(record.status).label(),
        ),
        Ok(None) => protocol::not_found(task_id),
    }
}

/// The next step of a cancellation.
pub enum CancelStep {
    /// Look the job with this id up in the queue.
    ReadJob(String),
    /// Carry out the writes, then cancel the job, which no worker has claimed.
    WriteAndRemove {
        /// The writes.
        writes: Vec<JobAction>,
        /// The job.
        task_id: String,
    },
    /// Cancel the job, which a worker has claimed.
    RequestStop {
        /// The job.
        task_id: String,
        /// The tool that the worker runs.
        tool: String,
    },
    /// Append the entry to the audit log, then tell the client of the task.
    RecordAndReply(AuditEntry, Task),
    /// Read the result record at this location.
    ReadRecord(Path),
    /// Answer the request.
    Reply(Result<Task, McpError>),
}

/// Whether `step` is the right one for a job that was looked up, and how the
/// index of tasks in flight changes.
pub open spec fn is_step_after_peek(
    step: CancelStep,
    task_id: Seq<char>,
    job: Result<Option<JobView>, Seq<char>>,
    before: Map<Seq<char>, InFlightInfoView>,
    after: Map<Seq<char>, InFlightInfoView>,
    now_ms: u64,
    retention: Duration,
    record_path: Seq<char>,
) -> bool {
    match job {
        Err(why) => {
            &&& step matches CancelStep::Reply(Err(error))
            &&& error@ == protocol::internal_error("queue lookup failed: "@, why)
            &&& after == before
        },
        Ok(Some(job)) if job.status == JobStatus::Pending || job.status == JobStatus::Scheduled => {
            &&& step matches CancelStep::WriteAndRemove { writes, task_id: id }
            &&& id@ == task_id
            &&& worker::plan_of(writes@) == worker::cancellation_writes(
                task_id,
                cancelled_tool(in_flight::lookup(before, task_id), job),
                now_ms,
                retention,
            )
            &&& after == before.remove(task_id)
        },
        Ok(Some(job)) if job.status == JobStatus::Claimed => {
            &&& step matches CancelStep::RequestStop { task_id: id, tool }
            &&& id@ == task_id
            &&& tool@ == requested_tool(job)
            &&& after == before
        },
        Ok(_) => {
            &&& step matches CancelStep::ReadRecord(key)
            &&& location::path_text(key) == record_path
            &&& after == before
        },
    }
}

/// What came of cancelling a job: the outcome, or what the failure says.
pub open spec fn cancel_reply(reply: Result<CancelOutcome, String>) -> Result<
    CancelOutcome,
    Seq<char>,
> {
    match reply {
        Ok(outcome) => Ok(outcome),
        Err(why) => Err(why@),
    }
}

/// The answer once a job that no worker had claimed was cancelled. Where a
/// worker was faster, its own record will replace the one that was written, so
/// the answer is the same.
pub open spec fn answer_after_removal(
    task_id: Seq<char>,
    outcome: Result<CancelOutcome, Seq<char>>,
    ttl: Option<u64>,
    now: Seq<char>,
) -> TaskAnswer {
    match outcome {
        Ok(_) => Ok(cancelled_task(task_id, None, ttl, now)),
        Err(why) => Err(protocol::internal_error("queue cancel failed: "@, why)),
    }
}

/// Whether `step` is the right one once the worker of a claimed job was asked to
/// stop. Where the worker had settled the job by then, the record tells what
/// became of the task.
pub open spec fn is_step_after_request(
    step: CancelStep,
    task_id: Seq<char>,
    tool: Seq<char>,
    outcome: Result<CancelOutcome, Seq<char>>,
    now_ms: u64,
    record_path: Seq<char>,
    ttl: Option<u64>,
    now: Seq<char>,
) -> bool {
    match outcome {
        Err(why) => {
            &&& step matches CancelStep::Reply(Err(error))
            &&& error@ == protocol::internal_error("queue cancel failed: "@, why)
        },
        Ok(CancelOutcome::NotFound) => {
            &&& step matches CancelStep::ReadRecord(key)
            &&& location::path_text(key) == record_path
        },
        Ok(_) => {
            &&& step matches CancelStep::RecordAndReply(entry, task)
            &&& entry@ == worker::event_entry(AuditEvent::Cancelled, task_id, tool, now_ms, None)
            &&& task@ == cancelled_task(task_id, Some(cancellation_requested()), ttl, now)
        },
    }
}

impl<S, C> TaqubaTaskBackend<S, C> {
    /// Cancel a task: the first thing is to look at its job, to see who owns the
    /// record. No worker will ever run a job that was not claimed, so its
    /// cancellation is recorded here; for a claimed one the worker does it.
    pub fn cancel_task(&self, task_id: &str) -> (step: CancelStep)
        ensures
            step matches CancelStep::ReadJob(id) && id@ == task_id@,
    {
        CancelStep::ReadJob(task_id.to_owned())
    }

    /// Continues a cancellation with the job that was looked up.
    pub fn cancel_after_peek(
        &self,
        task_id: &str,
        read: Result<Option<JobRecord>, String>,
        in_flight: &mut InFlight,
        now_ms: u64,
    ) -> (step: CancelStep)
        ensures
            is_step_after_peek(
                step,
                task_id@,
                queue::job_read(read),
                old(in_flight)@,
                final(in_flight)@,
                now_ms,
                self.config.result_retention,
                self.record_path(task_id@),
            ),
    {
        let job: JobRecord = match read {
            Err(why) => {
                return CancelStep::Reply(
                    Err(McpError::internal_error("queue lookup failed: ", why.as_str())),
                );
            },
            Ok(None) => return CancelStep::ReadRecord(self.result_store.key(task_id)),
            Ok(Some(job)) => job,
        };
        match job.status {
            JobStatus::Pending | JobStatus::Scheduled => {
                let tool: String = match in_flight.remove(task_id) {
                    Some(info) => info.tool,
                    None => match job.tool_header() {
                        Some(tool) => tool,
                        None => String::new(),
                    },
                };
                CancelStep::WriteAndRemove {
                    writes: self.record_cancelled(task_id, tool.as_str(), now_ms),
                    task_id: task_id.to_owned(),
                }
            },
            JobStatus::Claimed => {
                let tool: String = match job.tool_header() {
                    Some(tool) => tool,
                    None => String::new(),
                };
                CancelStep::RequestStop { task_id: task_id.to_owned(), tool }
            },
            JobStatus::Done | JobStatus::Dead => CancelStep::ReadRecord(
                self.result_store.key(task_id),
            ),
        }
    }

    /// The writes for a task that is cancelled while no worker runs it.
    pub fn record_cancelled(&self, task_id: &str, tool: &str, now_ms: u64) -> (writes: Vec<
        JobAction,
    >)
        ensures
            worker::plan_of(writes@) == worker::cancellation_writes(
                task_id@,
                tool@,
                now_ms,
                self.config.result_retention,
            ),
    {
        worker::write_cancelled(task_id, tool, now_ms, self.config.result_retention)
    }

    /// Ends the cancellation of a job that no worker had claimed.
    pub fn cancel_after_removal(
        &self,
        task_id: &str,
        outcome: Result<CancelOutcome, String>,
    ) -> (reply: Result<Task, McpError>)
        ensures
            exists|now: Seq<char>|
                time::is_now(now) && protocol::answer_of(reply) == #[trigger] answer_after_removal(
                    task_id@,
                    cancel_reply(outcome),
                    self.ttl(),
                    now,
                ),
    {
        let now: String = time::now_text();
        self.cancel_after_removal_at(task_id, outcome, now.as_str())
    }

    /// Ends, at `now`, the cancellation of a job that no worker had claimed.
    pub fn cancel_after_removal_at(
        &self,
        task_id: &str,
        outcome: Result<CancelOutcome, String>,
        now: &str,
    ) -> (reply: Result<Task, McpError>)
        ensures
            protocol::answer_of(reply) == answer_after_removal(
                task_id@,
                cancel_reply(outcome),
                self.ttl(),
                now@,
            ),
    {
        match outcome {
            Ok(_) => Ok(self.cancelled_result(task_id, None, now)),
            Err(why) => Err(McpError::internal_error("queue cancel failed: ", why.as_str())),
        }
    }

    /// Continues the cancellation of a job whose worker was just asked to stop
    /// running `tool`.
    pub fn cancel_after_request(
        &self,
        task_id: &str,
        tool: &str,
        outcome: Result<CancelOutcome, String>,
        now_ms: u64,
    ) -> (step: CancelStep)
        ensures
            exists|now: Seq<char>|
                time::is_now(now) && #[trigger] is_step_after_request(
                    step,
                    task_id@,
                    tool@,
                    cancel_reply(outcome),
                    now_ms,
                    self.record_path(task_id@),
                    self.ttl(),
                    now,
                ),
    {
        let now: String = time::now_text();
        self.cancel_after_request_at(task_id, tool, outcome, now_ms, now.as_str())
    }

    /// Continues, at `now`, the cancellation of a job whose worker was asked to
    /// stop running `tool`.
    pub fn cancel_after_request_at(
        &self,
        task_id: &str,
        tool: &str,
        outcome: Result<CancelOutcome, String>,
        now_ms: u64,
        now: &str,
    ) -> (step: CancelStep)
        ensures
            is_step_after_request(
                step,
                task_id@,
                tool@,
                cancel_reply(outcome),
                now_ms,
                self.record_path(task_id@),
                self.ttl(),
                now@,
            ),
    {
        match outcome {
            Err(why) => CancelStep::Reply(
                Err(McpError::internal_error("queue cancel failed: ", why.as_str())),
            ),
            Ok(CancelOutcome::NotFound) => CancelStep::ReadRecord(self.result_store.key(task_id)),
            Ok(CancelOutcome::Requested) | Ok(CancelOutcome::Removed) => {
                let entry: AuditEntry = audit::entry(
                    AuditEvent::Cancelled,
                    task_id,
                    tool,
                    now_ms,
                    None,
                );
                let message: String =
                    "cancellation requested; the tool may still be finishing".to_owned();
                CancelStep::RecordAndReply(
                    entry,
                    self.cancelled_result(task_id, Some(message), now),
                )
            },
        }
    }

    /// What the client is told of a task that it cancelled at `now`.
    pub fn cancelled_result(&self, task_id: &str, message: Option<String>, now: &str) -> (task:
        Task)
        ensures
            task@ == cancelled_task(task_id@, text::text_of(message), self.ttl(), now@),
    {
        Task::just_now(task_id, TaskStatus::Cancelled, message, self.task_ttl_ms(), now)
    }

    /// For a task that the queue could not cancel: the request is invalid if
    /// the task already reached a terminal state, otherwise the task is not
    /// found.
    pub fn terminal_or_not_found(
        &self,
        task_id: &str,
        read: Result<Option<ResultRecord>, Error>,
    ) -> (reply: Result<Task, McpError>)
        ensures
            protocol::answer_of(reply) == Err::<TaskView, McpErrorView>(
                refusal(task_id@, result_store::record_read(read)),
            ),
    {
        match read {
            Err(error) => {
                let why: String = error.text();
                Err(McpError::internal_error("result store read failed: ", why.as_str()))
            },
            Ok(Some(record)) => Err(
                McpError::invalid_request(
                    "task is already in terminal state: ",
                    TaskStatus::from(record.status).name(),
                ),
            ),
            Ok(None) => Err(McpError::not_found(task_id)),
        }
    }
}

} // verus!
