//! Requests for the status of a task.
//!
//! What a client is told comes from the first place that knows of the task: the
//! terminal pointer, the in-flight index, a live job, the result record. Each
//! is read only when those before it had nothing to tell.
use crate::backend::TaqubaTaskBackend;
use crate::error::Error;
use crate::in_flight;
use crate::in_flight::{InFlight, InFlightInfoView};
use crate::location;
use crate::pointer;
use crate::pointer::TaskPointer;
use crate::protocol;
use crate::protocol::{McpError, Task, TaskAnswer, TaskStatus};
use crate::queue;
use crate::queue::{JobRecord, JobStatus, JobView};
use crate::result_store;
use crate::result_store::{ResultRecord, ResultRecordView};
use crate::time;
use taquba::object_store::path::Path;
use vstd::prelude::*;

verus! {

/// What is known of one task, from each place that knows of tasks: what was
/// read there, or what the failure of the read says.
pub struct TaskReads {
    /// The terminal pointer.
    pub pointer: Result<Option<TaskPointer>, Seq<char>>,
    /// The in-flight entry.
    pub in_flight: Option<InFlightInfoView>,
    /// The queue job.
    pub job: Result<Option<JobView>, Seq<char>>,
    /// The result record.
    pub record: Result<Option<ResultRecordView>, Seq<char>>,
}

/// What a client is told of a task that a job still stands for.
pub open spec fn live_job_message(status: JobStatus) -> Option<Seq<char>> {
    match status {
        JobStatus::Claimed => Some("running"@),
        JobStatus::Pending | JobStatus::Scheduled => Some("queued"@),
        JobStatus::Done | JobStatus::Dead => None,
    }
}

/// What the terminal pointer and the in-flight entry tell of a task, if they
/// tell anything: the pointer first, so that it wins over a stale entry.
pub open spec fn snapshot_from_pointer(
    task_id: Seq<char>,
    pointer: Result<Option<TaskPointer>, Seq<char>>,
    in_flight: Option<InFlightInfoView>,
    ttl: Option<u64>,
    now: Seq<char>,
) -> Option<TaskAnswer> {
    match pointer {
        Err(why) => Some(Err(protocol::internal_error("pointer read failed: "@, why))),
        Ok(Some(pointer)) => Some(
            Ok(
                protocol::finished_task(
                    task_id,
                    result_store::reported_status(pointer.status),
                    None,
                    pointer.completed_at_ms,
                    ttl,
                    now,
                ),
            ),
        ),
        Ok(None) => match in_flight {
            Some(info) => Some(
                Ok(protocol::working_task(task_id, info.message(), info.started_at_ms, ttl, now)),
            ),
            None => None,
        },
    }
}

/// What the queue job tells of a task, if it tells anything: a live job is
/// queued or running, whatever the result store holds by now.
pub open spec fn snapshot_from_job(
    task_id: Seq<char>,
    job: Result<Option<JobView>, Seq<char>>,
    ttl: Option<u64>,
    now: Seq<char>,
) -> Option<TaskAnswer> {
    match job {
        Err(why) => Some(Err(protocol::internal_error("queue lookup failed: "@, why))),
        Ok(Some(job)) => match live_job_message(job.status) {
            Some(message) => Some(
                Ok(protocol::working_task(task_id, message, job.enqueued_at, ttl, now)),
            ),
            None => None,
        },
        Ok(None) => None,
    }
}

/// What the result record tells of a task, if there is one.
pub open spec fn snapshot_from_record(
    task_id: Seq<char>,
    record: Result<Option<ResultRecordView>, Seq<char>>,
    ttl: Option<u64>,
    now: Seq<char>,
) -> Option<TaskAnswer> {
    match record {
        Err(why) => Some(Err(protocol::internal_error("result store read failed: "@, why))),
        Ok(Some(record)) => Some(
            Ok(
                protocol::finished_task(
                    task_id,
                    result_store::reported_status(record.status),
                    record.error,
                    record.completed_at_ms,
                    ttl,
                    now,
                ),
            ),
        ),
        Ok(None) => None,
    }
}

/// The answer to a request for the status of a task: the pointer tells first,
/// then the in-flight entry, then a live job, then the result record. A task
/// that none of them knows is not found.
pub open spec fn task_info(
    task_id: Seq<char>,
    reads: TaskReads,
    ttl: Option<u64>,
    now: Seq<char>,
) -> TaskAnswer {
    match snapshot_from_pointer(task_id, reads.pointer, reads.in_flight, ttl, now) {
        Some(answer) => answer,
        None => match snapshot_from_job(task_id, reads.job, ttl, now) {
            Some(answer) => answer,
            None => match snapshot_from_record(task_id, reads.record, ttl, now) {
                Some(answer) => answer,
                None => Err(protocol::not_found(task_id)),
            },
        },
    }
}

/// Whether a step of a status lookup is the right one, given what the pointer
/// and the in-flight entry tell: the answer, or else a look at the queue.
pub open spec fn is_step_after_pointer(
    step: InfoStep,
    task_id: Seq<char>,
    told: Option<TaskAnswer>,
) -> bool {
    match (told, step) {
        (Some(answer), InfoStep::Reply(reply)) => protocol::answer_of(reply) == answer,
        (None, InfoStep::ReadJob(id)) => id@ == task_id,
        _ => false,
    }
}

/// Whether a step of a status lookup is the right one, given what the job
/// tells: the answer, or else a look at the record that lies at `record_path`.
pub open spec fn is_step_after_job(
    step: InfoStep,
    told: Option<TaskAnswer>,
    record_path: Seq<char>,
) -> bool {
    match (told, step) {
        (Some(answer), InfoStep::Reply(reply)) => protocol::answer_of(reply) == answer,
        (None, InfoStep::ReadRecord(key)) => location::path_text(key) == record_path,
        _ => false,
    }
}

/// The answer after every place was asked, given what the record tells.
pub open spec fn answer_after_record(task_id: Seq<char>, told: Option<TaskAnswer>) -> TaskAnswer {
    match told {
        Some(answer) => answer,
        None => Err(protocol::not_found(task_id)),
    }
}

/// The next step towards the status of a task.
pub enum InfoStep {
    /// Read the terminal pointer under this key.
    ReadPointer(Vec<u8>),
    /// Look the job with this id up in the queue.
    ReadJob(String),
    /// Read the result record at this location.
    ReadRecord(Path),
    /// Answer the request.
    Reply(Result<Task, McpError>),
}

impl<S, C> TaqubaTaskBackend<S, C> {
    /// Look up a task's current status: the first thing to read is the terminal
    /// pointer, committed atomically with the worker's ack.
    pub fn get_task_info(&self, task_id: &str) -> (step: InfoStep)
        ensures
            step matches InfoStep::ReadPointer(key) && key@ == pointer::key_of(task_id@),
    {
        InfoStep::ReadPointer(pointer::pointer_key(task_id))
    }

    /// Continues a status lookup with the pointer that was just read.
    pub fn info_from_pointer(
        &self,
        task_id: &str,
        read: Result<Option<TaskPointer>, Error>,
        in_flight: &InFlight,
    ) -> (step: InfoStep)
        ensures
            exists|now: Seq<char>|
                time::is_now(now) && is_step_after_pointer(
                    step,
                    task_id@,
                    #[trigger] snapshot_from_pointer(
                        task_id@,
                        pointer::pointer_read(read),
                        in_flight::lookup(in_flight@, task_id@),
                        self.ttl(),
                        now,
                    ),
                ),
    {
        let now: String = time::now_text();
        self.info_from_pointer_at(task_id, read, in_flight, now.as_str())
    }

    /// Continues a status lookup with the pointer that was read at `now`.
    pub fn info_from_pointer_at(
        &self,
        task_id: &str,
        read: Result<Option<TaskPointer>, Error>,
        in_flight: &InFlight,
        now: &str,
    ) -> (step: InfoStep)
        ensures
            is_step_after_pointer(
                step,
                task_id@,
                snapshot_from_pointer(
                    task_id@,
                    pointer::pointer_read(read),
                    in_flight::lookup(in_flight@, task_id@),
                    self.ttl(),
                    now@,
                ),
            ),
    {
        let ttl: Option<u64> = self.task_ttl_ms();
        match read {
            Err(error) => {
                let why: String = error.text();
                InfoStep::Reply(Err(McpError::internal_error("pointer read failed: ", why.as_str())))
            },
            Ok(Some(pointer)) => InfoStep::Reply(
                Ok(
                    Task::finished(
                        task_id,
                        TaskStatus::from(pointer.status),
                        None,
                        pointer.completed_at_ms,
                        ttl,
                        now,
                    ),
                ),
            ),
            Ok(None) => match in_flight.get(task_id) {
                Some(info) => InfoStep::Reply(
                    Ok(Task::working(task_id, info.message(), info.started_at_ms, ttl, now)),
                ),
                None => InfoStep::ReadJob(task_id.to_owned()),
            },
        }
    }

    /// Continues a status lookup with the job that was just read.
    pub fn info_from_job(&self, task_id: &str, read: Result<Option<JobRecord>, String>) -> (step:
        InfoStep)
        ensures
            exists|now: Seq<char>|
                time::is_now(now) && is_step_after_job(
                    step,
                    #[trigger] snapshot_from_job(task_id@, queue::job_read(read), self.ttl(), now),
                    self.record_path(task_id@),
                ),
    {
        let now: String = time::now_text();
        self.info_from_job_at(task_id, read, now.as_str())
    }

    /// Continues a status lookup with the job that was read at `now`.
    pub fn info_from_job_at(
        &self,
        task_id: &str,
        read: Result<Option<JobRecord>, String>,
        now: &str,
    ) -> (step: InfoStep)
        ensures
            is_step_after_job(
                step,
                snapshot_from_job(task_id@, queue::job_read(read), self.ttl(), now@),
                self.record_path(task_id@),
            ),
    {
        let ttl: Option<u64> = self.task_ttl_ms();
        match read {
            Err(why) => InfoStep::Reply(
                Err(McpError::internal_error("queue lookup failed: ", why.as_str())),
            ),
            Ok(Some(job)) => match job.status {
                JobStatus::Claimed => InfoStep::Reply(
                    Ok(Task::working(task_id, "running", job.enqueued_at, ttl, now)),
                ),
                JobStatus::Pending | JobStatus::Scheduled => InfoStep::Reply(
                    Ok(Task::working(task_id, "queued", job.enqueued_at, ttl, now)),
                ),
                JobStatus::Done | JobStatus::Dead => InfoStep::ReadRecord(
                    self.result_store.key(task_id),
                ),
            },
            Ok(None) => InfoStep::ReadRecord(self.result_store.key(task_id)),
        }
    }

    /// Ends a status lookup with the result record that was just read.
    pub fn info_from_record(
        &self,
        task_id: &str,
        read: Result<Option<ResultRecord>, Error>,
    ) -> (reply: Result<Task, McpError>)
        ensures
            exists|now: Seq<char>|
                time::is_now(now) && protocol::answer_of(reply) == answer_after_record(
                    task_id@,
                    #[trigger] snapshot_from_record(
                        task_id@,
                        result_store::record_read(read),
                        self.ttl(),
                        now,
                    ),
                ),
    {
        let now: String = time::now_text();
        self.info_from_record_at(task_id, read, now.as_str())
    }

    /// Ends a status lookup with the result record that was read at `now`.
    pub fn info_from_record_at(
        &self,
        task_id: &str,
        read: Result<Option<ResultRecord>, Error>,
        now: &str,
    ) -> (reply: Result<Task, McpError>)
        ensures
            protocol::answer_of(reply) == answer_after_record(
                task_id@,
                snapshot_from_record(
                    task_id@,
                    result_store::record_read(read),
                    self.ttl(),
                    now@,
                ),
            ),
    {
        match read {
            Err(error) => {
                let why: String = error.text();
                Err(McpError::internal_error("result store read failed: ", why.as_str()))
            },
            Ok(Some(record)) => Ok(
                Task::finished(
                    task_id,
                    TaskStatus::from(record.status),
                    record.error,
                    record.completed_at_ms,
                    self.task_ttl_ms(),
                    now,
                ),
            ),
            Ok(None) => Err(McpError::not_found(task_id)),
        }
    }
}

} // verus!
