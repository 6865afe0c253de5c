//! What a client is told, field by field: of a task that it asks for, of its
//! result, of a task that it cancels or submits, and of all tasks.
use crate::audit::AuditEvent;
use crate::backend::TaqubaTaskBackend;
use crate::cancel;
use crate::cancel::CancelStep;
use crate::error::Error;
use crate::in_flight::{InFlight, InFlightInfoView};
use crate::info;
use crate::info::InfoStep;
use crate::listing;
use crate::location;
use crate::outcome;
use crate::outcome::ResultStep;
use crate::pointer;
use crate::pointer::TaskPointer;
use crate::protocol;
use crate::protocol::{McpError, McpErrorKind, McpErrorView, Task, TaskStatus, TaskView};
use crate::queue;
use crate::queue::{CancelOutcome, JobRecord, JobStatus, NewJob};
use crate::result_store;
use crate::result_store::{FinishedStatus, ResultRecord, ResultRecordView};
use crate::submit;
use crate::submit::Submission;
use crate::time;
use crate::worker;
use crate::worker::JobAction;
use rmcp::model::{CallToolRequestParams, CallToolResult};
use serde_json::Value;
use std::time::Duration;
use vstd::prelude::*;

verus! {

/// Where the pointer could not be read, the client is told so. A task with a
/// pointer is reported as the pointer says it ended, under its own id. Without
/// one, a task in flight is reported as working, running where a worker runs it
/// and queued where none does. Otherwise its own job is looked up.
pub proof fn pointer_is_told_first(
    step: InfoStep,
    task_id: Seq<char>,
    read: Result<Option<TaskPointer>, Error>,
    in_flight: Option<InFlightInfoView>,
    ttl: Option<u64>,
    now: Seq<char>,
)
    requires
        info::is_step_after_pointer(
            step,
            task_id,
            info::snapshot_from_pointer(
                task_id,
                pointer::pointer_read(read),
                in_flight,
                ttl,
                now,
            ),
        ),
    ensures
        read matches Err(failure) ==> {
            &&& step matches InfoStep::Reply(Err(error))
            &&& error.kind == McpErrorKind::InternalError
            &&& error.message@ == "pointer read failed: "@ + failure.message()
        },
        read matches Ok(Some(found)) ==> {
            &&& step matches InfoStep::Reply(Ok(task))
            &&& task.task_id@ == task_id
            &&& found.status == FinishedStatus::Completed ==> task.status == TaskStatus::Completed
            &&& found.status == FinishedStatus::Failed ==> task.status == TaskStatus::Failed
            &&& found.status == FinishedStatus::Cancelled ==> task.status == TaskStatus::Cancelled
            &&& task.status_message is None
            &&& task.created_at@ == time::timestamp(found.completed_at_ms, now)
            &&& task.last_updated_at@ == time::timestamp(found.completed_at_ms, now)
            &&& task.ttl == ttl
        },
        read matches Ok(None) ==> match in_flight {
            Some(entry) => {
                &&& step matches InfoStep::Reply(Ok(task))
                &&& task.task_id@ == task_id
                &&& task.status == TaskStatus::Working
                &&& task.status_message matches Some(message)
                &&& entry.running ==> message@ == "running"@
                &&& !entry.running ==> message@ == "queued"@
                &&& task.created_at@ == time::timestamp(entry.started_at_ms, now)
                &&& task.last_updated_at@ == now
                &&& task.ttl == ttl
            },
            None => step matches InfoStep::ReadJob(id) && id@ == task_id,
        },
{
}

/// Where the queue could not be asked, the client is told so. A task with a live
/// job is reported as working since it was enqueued, running where its job is
/// claimed and queued where it is not. Otherwise the record is read.
pub proof fn live_job_is_told_next(
    step: InfoStep,
    task_id: Seq<char>,
    read: Result<Option<JobRecord>, String>,
    ttl: Option<u64>,
    now: Seq<char>,
    record_path: Seq<char>,
)
    requires
        info::is_step_after_job(
            step,
            info::snapshot_from_job(task_id, queue::job_read(read), ttl, now),
            record_path,
        ),
    ensures
        read matches Err(why) ==> {
            &&& step matches InfoStep::Reply(Err(error))
            &&& error.kind == McpErrorKind::InternalError
            &&& error.message@ == "queue lookup failed: "@ + why@
        },
        read matches Ok(Some(job)) ==> match job.status {
            JobStatus::Pending | JobStatus::Scheduled | JobStatus::Claimed => {
                &&& step matches InfoStep::Reply(Ok(task))
                &&& task.task_id@ == task_id
                &&& task.status == TaskStatus::Working
                &&& task.status_message matches Some(message)
                &&& job.status == JobStatus::Claimed ==> message@ == "running"@
                &&& job.status != JobStatus::Claimed ==> message@ == "queued"@
                &&& task.created_at@ == time::timestamp(job.enqueued_at, now)
                &&& task.last_updated_at@ == now
                &&& task.ttl == ttl
            },
            JobStatus::Done | JobStatus::Dead => step matches InfoStep::ReadRecord(key)
                && location::path_text(key) == record_path,
        },
        read matches Ok(None) ==> (step matches InfoStep::ReadRecord(key) && location::path_text(
            key,
        ) == record_path),
{
}

/// Where the record could not be read, the client is told so. A task with a
/// record is reported as the record says it ended, with the record's error,
/// whichever status that is. Only a task without one is not found.
pub proof fn record_is_told_last(
    reply: Result<Task, McpError>,
    task_id: Seq<char>,
    read: Result<Option<ResultRecord>, Error>,
    ttl: Option<u64>,
    now: Seq<char>,
)
    requires
        protocol::answer_of(reply) == info::answer_after_record(
            task_id,
            info::snapshot_from_record(task_id, result_store::record_read(read), ttl, now),
        ),
    ensures
        read matches Err(failure) ==> {
            &&& reply matches Err(error)
            &&& error.kind == McpErrorKind::InternalError
            &&& error.message@ == "result store read failed: "@ + failure.message()
        },
        read matches Ok(Some(record)) ==> {
            &&& reply matches Ok(task)
            &&& task.task_id@ == task_id
            &&& record.status == FinishedStatus::Completed ==> task.status == TaskStatus::Completed
            &&& record.status == FinishedStatus::Failed ==> task.status == TaskStatus::Failed
            &&& record.status == FinishedStatus::Cancelled ==> task.status == TaskStatus::Cancelled
            &&& record.error is None ==> task.status_message is None
            &&& record.error matches Some(why) ==> (task.status_message matches Some(message)
                && message@ == why@)
            &&& task.created_at@ == time::timestamp(record.completed_at_ms, now)
            &&& task.last_updated_at@ == time::timestamp(record.completed_at_ms, now)
            &&& task.ttl == ttl
        },
        read matches Ok(None) ==> {
            &&& reply matches Err(error)
            &&& error.kind == McpErrorKind::ResourceNotFound
            &&& error.message@ == "task not found: "@ + task_id
        },
{
    match (read, reply) {
        (Ok(Some(record)), Ok(task)) => {
            assert(task@.status_message == record@.error);
        },
        _ => {},
    }
}

/// The value of a tool's result is the encoder's, or what the encoder's error
/// says.
pub proof fn result_is_encoded(result: CallToolResult)
    ensures
        protocol::result_value(result) matches Ok(value) ==> outcome::told_value(result) == Ok::<
            Value,
            Seq<char>,
        >(value),
        protocol::result_value(result) matches Err(error) ==> outcome::told_value(result) == Err::<
            Value,
            Seq<char>,
        >(protocol::json_error_message(error)),
{
}

/// The value of a completed task's result is the answer as it stands; where it
/// has none, the client is told why.
pub proof fn encoded_result_is_the_answer(
    reply: Result<Value, McpError>,
    encoded: Result<Value, Seq<char>>,
)
    requires
        outcome::payload_of(reply) == outcome::completed_payload(encoded),
    ensures
        encoded matches Ok(value) ==> reply == Ok::<Value, McpError>(value),
        encoded matches Err(why) ==> {
            &&& reply matches Err(error)
            &&& error.kind == McpErrorKind::InternalError
            &&& error.message@ == "failed to serialize tool result: "@ + why
        },
{
}

/// The record of a task answers by its status alone: a completed task with what
/// its tool returned, a failed one with its error, a cancelled one with the word
/// that it was cancelled.
pub proof fn record_answers_by_its_status(
    reply: Result<Value, McpError>,
    task_id: Seq<char>,
    record: ResultRecord,
    fallback: CallToolResult,
)
    requires
        outcome::payload_of(reply) == outcome::record_payload(task_id, record@, fallback),
    ensures
        record.status == FinishedStatus::Completed ==> {
            let result = match record.result {
                Some(result) => result,
                None => fallback,
            };
            match protocol::result_value(result) {
                Ok(value) => reply == Ok::<Value, McpError>(value),
                Err(failure) => {
                    &&& reply matches Err(error)
                    &&& error.kind == McpErrorKind::InternalError
                    &&& error.message@ == "failed to serialize tool result: "@
                        + protocol::json_error_message(failure)
                },
            }
        },
        record.status == FinishedStatus::Failed ==> {
            &&& reply matches Err(error)
            &&& error.kind == McpErrorKind::InternalError
            &&& record.error matches Some(why) ==> error.message@ == "task failed: "@ + why@
            &&& record.error is None ==> error.message@ == "task failed: "@
                + "(no error message)"@
        },
        record.status == FinishedStatus::Cancelled ==> {
            &&& reply matches Err(error)
            &&& error.kind == McpErrorKind::InvalidRequest
            &&& error.message@ == "task was cancelled: "@ + task_id
        },
{
}

/// A record that was read answers the request, whether or not the task is still
/// held to be in flight. A failed read is told. Without a record a task in
/// flight is waited for as long as there is time, and the job of any other is
/// looked up: no task is given up on here.
pub proof fn record_settles_the_request(
    step: ResultStep,
    task_id: Seq<char>,
    read: Result<Option<ResultRecord>, Error>,
    in_flight: bool,
    fallback: CallToolResult,
)
    requires
        outcome::is_step_from_record(
            step,
            task_id,
            result_store::record_read(read),
            in_flight,
            fallback,
        ),
    ensures
        read matches Err(failure) ==> {
            &&& step matches ResultStep::Reply(Err(error))
            &&& error.kind == McpErrorKind::InternalError
            &&& error.message@ == "result store read failed: "@ + failure.message()
        },
        read matches Ok(Some(record)) ==> {
            &&& step matches ResultStep::Reply(reply)
            &&& outcome::payload_of(reply) == outcome::record_payload(task_id, record@, fallback)
            &&& reply is Ok <==> record.status == FinishedStatus::Completed
                && protocol::result_value(
                match record.result {
                    Some(result) => result,
                    None => fallback,
                },
            ) is Ok
        },
        read matches Ok(None) && in_flight ==> step is CheckDeadline,
        read matches Ok(None) && !in_flight ==> (step matches ResultStep::ReadJob(id) && id@
            == task_id),
        outcome::read_record(result_store::record_read(read)) == match read {
            Ok(Some(record)) => Some(record@),
            _ => None,
        },
{
}

/// The fallback stands for a result only where the record of a completed task
/// holds none, and is then what the outside type has for a default.
pub proof fn fallback_is_the_default(record: ResultRecordView, fallback: CallToolResult)
    ensures
        record.status == FinishedStatus::Completed && record.result is None ==> (
        outcome::is_fallback(Some(record), fallback) <==> call_ensures(
            <CallToolResult as Default>::default,
            (),
            fallback,
        )),
{
}

/// A task that the queue knows is waited for, whatever the status of its job:
/// pending, scheduled, claimed, done or dead. Only one that the queue does not
/// know is not found, and a queue that could not be asked is told.
pub proof fn known_job_is_waited_for(
    step: ResultStep,
    task_id: Seq<char>,
    read: Result<Option<JobRecord>, String>,
)
    requires
        outcome::is_step_from_job(step, task_id, queue::job_read(read)),
    ensures
        step is CheckDeadline <==> read matches Ok(Some(_)),
        read matches Err(why) ==> {
            &&& step matches ResultStep::Reply(Err(error))
            &&& error.kind == McpErrorKind::InternalError
            &&& error.message@ == "queue lookup failed: "@ + why@
        },
        read matches Ok(None) ==> {
            &&& step matches ResultStep::Reply(Err(error))
            &&& error.kind == McpErrorKind::ResourceNotFound
            &&& error.message@ == "task not found: "@ + task_id
        },
{
}

/// One look for a result without a record: a task that the index or the queue
/// knows, with a job of any status, is looked for again while there is time and
/// has no result yet once the time is up. It is not found exactly where neither
/// knows it.
pub proof fn known_task_has_a_result_or_none_yet(
    task_id: Seq<char>,
    in_flight: bool,
    job: Result<Option<JobRecord>, String>,
    time_is_up: bool,
    fallback: CallToolResult,
)
    ensures
        ({
            let look = outcome::result_look(
                task_id,
                Ok(None),
                in_flight,
                queue::job_read(job),
                time_is_up,
                fallback,
            );
            let known = in_flight || (job matches Ok(Some(_)));
            let not_found = look matches Some(Err(error)) && error.kind
                == McpErrorKind::ResourceNotFound;
            &&& known && !time_is_up ==> look is None
            &&& known && time_is_up ==> (look matches Some(Err(error)) && error.kind
                == McpErrorKind::InvalidRequest && error.message
                == "task result not yet available: "@ + task_id)
            &&& not_found <==> !in_flight && job == Ok::<Option<JobRecord>, String>(None)
            &&& not_found ==> (look matches Some(Err(error)) && error.message
                == "task not found: "@ + task_id)
            &&& !in_flight ==> (job matches Err(why) ==> (look matches Some(Err(error))
                && error.kind == McpErrorKind::InternalError && error.message
                == "queue lookup failed: "@ + why@))
        }),
{
}

/// One look for a result that finds a record is the answer, however the time
/// stands and whoever knows the task; one that could not read is an error.
pub proof fn found_record_is_the_answer(
    task_id: Seq<char>,
    read: Result<Option<ResultRecord>, Error>,
    in_flight: bool,
    job: Result<Option<JobRecord>, String>,
    time_is_up: bool,
    fallback: CallToolResult,
)
    ensures
        ({
            let look = outcome::result_look(
                task_id,
                result_store::record_read(read),
                in_flight,
                queue::job_read(job),
                time_is_up,
                fallback,
            );
            &&& read matches Ok(Some(record)) ==> look == Some(
                outcome::record_payload(task_id, record@, fallback),
            )
            &&& read matches Err(failure) ==> (look matches Some(Err(error)) && error.kind
                == McpErrorKind::InternalError && error.message == "result store read failed: "@
                + failure.message())
        }),
{
}

/// A task under way has no result yet once its request has lasted as long as it
/// may. Before that there is a pause, no longer than the poll interval and no
/// longer than what is left, and as long as one of the two.
pub proof fn request_lasts_as_long_as_it_may(
    step: ResultStep,
    task_id: Seq<char>,
    elapsed: Duration,
    max_wait: Duration,
    poll_interval: Duration,
)
    requires
        outcome::is_step_at_deadline(step, task_id, elapsed, max_wait, poll_interval),
    ensures
        time::duration_nanos(elapsed) >= time::duration_nanos(max_wait) ==> {
            &&& step matches ResultStep::Reply(Err(error))
            &&& error.kind == McpErrorKind::InvalidRequest
            &&& error.message@ == "task result not yet available: "@ + task_id
        },
        time::duration_nanos(elapsed) < time::duration_nanos(max_wait) ==> {
            &&& step matches ResultStep::Sleep(pause)
            &&& time::duration_nanos(pause) <= time::duration_nanos(poll_interval)
            &&& time::duration_nanos(elapsed) + time::duration_nanos(pause)
                <= time::duration_nanos(max_wait)
            &&& time::duration_nanos(pause) == time::duration_nanos(poll_interval)
                || time::duration_nanos(elapsed) + time::duration_nanos(pause)
                == time::duration_nanos(max_wait)
        },
        outcome::time_is_up(elapsed, max_wait) <==> time::duration_nanos(elapsed)
            >= time::duration_nanos(max_wait),
{
}

/// A reply is a step that answers, with what the answer holds.
pub proof fn reply_holds_its_answer(step: ResultStep, answer: outcome::PayloadAnswer)
    ensures
        outcome::replies(step, answer) <==> match (step, answer) {
            (ResultStep::Reply(Ok(value)), Ok(told)) => value == told,
            (ResultStep::Reply(Err(error)), Err(told)) => error.kind == told.kind
                && error.message@ == told.message,
            _ => false,
        },
{
}

/// What a client is told of a task that it cancelled carries that task's id, that
/// it is cancelled, the message that goes with it, now for both times and the
/// time to live.
pub proof fn cancelled_task_keeps_its_id(
    task: Task,
    task_id: Seq<char>,
    message: Option<Seq<char>>,
    ttl: Option<u64>,
    now: Seq<char>,
)
    requires
        task@ == cancel::cancelled_task(task_id, message, ttl, now),
    ensures
        task.task_id@ == task_id,
        task.status == TaskStatus::Cancelled,
        message is None ==> task.status_message is None,
        message matches Some(told) ==> (task.status_message matches Some(message) && message@
            == told),
        task.created_at@ == now,
        task.last_updated_at@ == now,
        task.ttl == ttl,
{
}

/// A job that no worker had claimed is reported as cancelled under its own id,
/// whatever the queue found when it removed it. A queue that failed is told.
pub proof fn removed_task_is_reported_cancelled(
    reply: Result<Task, McpError>,
    task_id: Seq<char>,
    outcome: Result<CancelOutcome, String>,
    ttl: Option<u64>,
    now: Seq<char>,
)
    requires
        protocol::answer_of(reply) == cancel::answer_after_removal(
            task_id,
            cancel::cancel_reply(outcome),
            ttl,
            now,
        ),
    ensures
        reply is Ok <==> outcome is Ok,
        outcome is Ok ==> {
            &&& reply matches Ok(task)
            &&& task.task_id@ == task_id
            &&& task.status == TaskStatus::Cancelled
            &&& task.status_message is None
            &&& task.created_at@ == now
            &&& task.last_updated_at@ == now
            &&& task.ttl == ttl
        },
        outcome matches Err(why) ==> {
            &&& reply matches Err(error)
            &&& error.kind == McpErrorKind::InternalError
            &&& error.message@ == "queue cancel failed: "@ + why@
        },
{
}

/// The answer for every task whose job was removed carries the id that was asked
/// for, so that no two tasks get the same one.
pub proof fn every_cancellation_names_its_task(
    task_id: Seq<char>,
    other: Seq<char>,
    outcome: CancelOutcome,
    ttl: Option<u64>,
    now: Seq<char>,
)
    ensures
        cancel::answer_after_removal(task_id, Ok(outcome), ttl, now) matches Ok(task)
            && task.task_id == task_id && task.status == TaskStatus::Cancelled,
        cancel::answer_after_removal(task_id, Ok(outcome), ttl, now)
            == cancel::answer_after_removal(other, Ok(outcome), ttl, now) ==> task_id == other,
{
}

/// A worker that was asked to stop has that entered in the log, under the task's
/// id and tool, and the client is told that the task is cancelled and may still
/// be finishing, under the task's own id. Where the job was gone by then the
/// record is read. A queue that failed is told.
pub proof fn asked_worker_is_reported_stopping(
    step: CancelStep,
    task_id: Seq<char>,
    tool: Seq<char>,
    outcome: Result<CancelOutcome, String>,
    now_ms: u64,
    record_path: Seq<char>,
    ttl: Option<u64>,
    now: Seq<char>,
)
    requires
        cancel::is_step_after_request(
            step,
            task_id,
            tool,
            cancel::cancel_reply(outcome),
            now_ms,
            record_path,
            ttl,
            now,
        ),
    ensures
        outcome matches Ok(done) ==> match done {
            CancelOutcome::NotFound => step matches CancelStep::ReadRecord(key)
                && location::path_text(key) == record_path,
            CancelOutcome::Requested | CancelOutcome::Removed => {
                &&& step matches CancelStep::RecordAndReply(entry, task)
                &&& entry.event == AuditEvent::Cancelled
                &&& entry.task_id@ == task_id
                &&& entry.tool@ == tool
                &&& entry.at_ms == now_ms
                &&& entry.error is None
                &&& task.task_id@ == task_id
                &&& task.status == TaskStatus::Cancelled
                &&& task.status_message matches Some(message)
                &&& message@ == "cancellation requested; the tool may still be finishing"@
                &&& task.created_at@ == now
                &&& task.last_updated_at@ == now
                &&& task.ttl == ttl
            },
        },
        outcome matches Err(why) ==> {
            &&& step matches CancelStep::Reply(Err(error))
            &&& error.kind == McpErrorKind::InternalError
            &&& error.message@ == "queue cancel failed: "@ + why@
        },
{
}

/// A job that no worker has claimed is cancelled at once: its record and its
/// entry are written under its own id and the tool that is remembered for it, or
/// else the one that its headers name, or none, and it is no longer in flight. A
/// claimed one is asked to stop, and stays in flight. For any other the record is
/// read. A queue that could not be asked is told. No other task is touched.
pub proof fn peeked_job_is_cancelled_by_its_status(
    step: CancelStep,
    task_id: Seq<char>,
    read: Result<Option<JobRecord>, String>,
    before: Map<Seq<char>, InFlightInfoView>,
    after: Map<Seq<char>, InFlightInfoView>,
    now_ms: u64,
    retention: Duration,
    record_path: Seq<char>,
    other: Seq<char>,
)
    requires
        cancel::is_step_after_peek(
            step,
            task_id,
            queue::job_read(read),
            before,
            after,
            now_ms,
            retention,
            record_path,
        ),
    ensures
        read matches Err(why) ==> {
            &&& step matches CancelStep::Reply(Err(error))
            &&& error.kind == McpErrorKind::InternalError
            &&& error.message@ == "queue lookup failed: "@ + why@
            &&& after == before
        },
        read matches Ok(None) ==> {
            &&& step matches CancelStep::ReadRecord(key)
            &&& location::path_text(key) == record_path
            &&& after == before
        },
        read matches Ok(Some(job)) ==> match job.status {
            JobStatus::Pending | JobStatus::Scheduled => {
                &&& step matches CancelStep::WriteAndRemove { writes, task_id: id }
                &&& id@ == task_id
                &&& writes.len() == 2
                &&& writes[0] matches JobAction::PutResult(record)
                &&& record.task_id@ == task_id
                &&& before.dom().contains(task_id) ==> record.tool@ == before[task_id].tool
                &&& !before.dom().contains(task_id) ==> match job@.tool_header() {
                    Some(named) => record.tool@ == named,
                    None => record.tool@.len() == 0,
                }
                &&& record.status == FinishedStatus::Cancelled
                &&& record.result is None
                &&& record.error is None
                &&& record.completed_at_ms == now_ms
                &&& record.expires_at_ms == time::expiry(now_ms, retention)
                &&& writes[1] matches JobAction::RecordAudit(entry)
                &&& entry.event == AuditEvent::Cancelled
                &&& entry.task_id@ == task_id
                &&& entry.tool@ == record.tool@
                &&& entry.at_ms == now_ms
                &&& entry.error is None
                &&& !after.dom().contains(task_id)
            },
            JobStatus::Claimed => {
                &&& step matches CancelStep::RequestStop { task_id: id, tool }
                &&& id@ == task_id
                &&& match job@.tool_header() {
                    Some(named) => tool@ == named,
                    None => tool@.len() == 0,
                }
                &&& after == before
            },
            JobStatus::Done | JobStatus::Dead => {
                &&& step matches CancelStep::ReadRecord(key)
                &&& location::path_text(key) == record_path
                &&& after == before
            },
        },
        other != task_id ==> (after.dom().contains(other) <==> before.dom().contains(other)),
        other != task_id && before.dom().contains(other) ==> after[other] == before[other],
{
    match step {
        CancelStep::WriteAndRemove { writes, task_id: id } => {
            let plan = worker::plan_of(writes@);
            assert(plan.len() == writes.len());
            if plan.len() == 2 {
                assert(plan[0] == writes[0]@ && plan[1] == writes[1]@);
            }
        },
        _ => {},
    }
}

/// A task that could not be cancelled is in a terminal state, named by its
/// status, where it has a record, and not found where it has none.
pub proof fn uncancelled_task_is_finished_or_unknown(
    reply: Result<Task, McpError>,
    task_id: Seq<char>,
    read: Result<Option<ResultRecord>, Error>,
)
    requires
        protocol::answer_of(reply) == Err::<TaskView, McpErrorView>(
            cancel::refusal(task_id, result_store::record_read(read)),
        ),
    ensures
        reply matches Err(error) && match read {
            Err(failure) => error.kind == McpErrorKind::InternalError && error.message@
                == "result store read failed: "@ + failure.message(),
            Ok(Some(record)) => error.kind == McpErrorKind::InvalidRequest && error.message@
                == "task is already in terminal state: "@ + match record.status {
                FinishedStatus::Completed => "Completed"@,
                FinishedStatus::Failed => "Failed"@,
                FinishedStatus::Cancelled => "Cancelled"@,
            },
            Ok(None) => error.kind == McpErrorKind::ResourceNotFound && error.message@
                == "task not found: "@ + task_id,
        },
{
}

/// A request becomes a job of the queue that is named after its tool, with the
/// bytes of the request for a payload, however many, and one header that names
/// the tool. A request that has no bytes becomes an error that says why.
pub proof fn request_becomes_a_job(
    job: Result<NewJob, McpError>,
    tool: Seq<char>,
    encoded: Result<Seq<u8>, Seq<char>>,
)
    requires
        submit::is_job_for(job, tool, encoded),
    ensures
        job is Ok <==> encoded is Ok,
        encoded matches Ok(bytes) ==> {
            &&& job matches Ok(job)
            &&& job.queue@ == tool
            &&& job.payload@ == bytes
            &&& job.headers.len() == 1
            &&& job.headers[0].0@ == "tool"@
            &&& job.headers[0].1@ == tool
        },
        encoded matches Err(why) ==> {
            &&& job matches Err(error)
            &&& error.kind == McpErrorKind::InternalError
            &&& error.message@ == "failed to serialize tool request: "@ + why
        },
{
    match job {
        Ok(job) => {
            let headers = queue::header_views(job.headers@);
            assert(headers.len() == 1);
            assert(headers[0] == (job.headers[0].0@, job.headers[0].1@));
        },
        Err(_) => {},
    }
}

/// The bytes of a request are the encoder's, or what the encoder's error says.
/// A payload that decodes calls a tool exactly where the decoded request does.
pub proof fn request_is_encoded(request: CallToolRequestParams, payload: Seq<u8>, tool: Seq<char>)
    ensures
        protocol::request_bytes(request) matches Ok(bytes) ==> submit::encoded_request(request)
            == Ok::<Seq<u8>, Seq<char>>(bytes),
        protocol::request_bytes(request) matches Err(error) ==> submit::encoded_request(request)
            == Err::<Seq<u8>, Seq<char>>(protocol::json_error_message(error)),
        protocol::parsed_request(payload) matches Ok(parsed) ==> (submit::payload_calls(
            payload,
            tool,
        ) <==> protocol::requested_tool(parsed) == tool),
{
}

/// A task that the queue took is told to the client as queued, under the id that
/// the queue gave it; its submission is entered in the log, and it is in flight
/// from then on, running only where a worker was already running it. One that
/// the queue refused is told, and changes nothing. No other task is touched.
pub proof fn taken_task_is_told_queued(
    submission: Result<Submission, McpError>,
    tool: Seq<char>,
    reply: Result<String, String>,
    before: Map<Seq<char>, InFlightInfoView>,
    after: Map<Seq<char>, InFlightInfoView>,
    now_ms: u64,
    ttl: Option<u64>,
    now: Seq<char>,
    other: Seq<char>,
)
    requires
        submit::is_submission(
            submission,
            tool,
            submit::enqueue_reply(reply),
            before,
            after,
            now_ms,
            ttl,
            now,
        ),
    ensures
        reply matches Ok(task_id) ==> {
            &&& submission matches Ok(accepted)
            &&& accepted.submitted.event == AuditEvent::Submitted
            &&& accepted.submitted.task_id@ == task_id@
            &&& accepted.submitted.tool@ == tool
            &&& accepted.submitted.at_ms == now_ms
            &&& accepted.submitted.error is None
            &&& accepted.task.task_id@ == task_id@
            &&& accepted.task.status == TaskStatus::Working
            &&& accepted.task.status_message matches Some(message)
            &&& message@ == "queued"@
            &&& accepted.task.created_at@ == now
            &&& accepted.task.last_updated_at@ == now
            &&& accepted.task.ttl == ttl
            &&& after.dom().contains(task_id@)
            &&& after[task_id@].tool == tool
            &&& after[task_id@].started_at_ms == now_ms
            &&& after[task_id@].running <==> before.dom().contains(task_id@)
                && before[task_id@].running
            &&& other != task_id@ ==> (after.dom().contains(other) <==> before.dom().contains(
                other,
            ))
            &&& other != task_id@ && before.dom().contains(other) ==> after[other]
                == before[other]
        },
        reply matches Err(why) ==> {
            &&& submission matches Err(error)
            &&& error.kind == McpErrorKind::InternalError
            &&& error.message@ == "taquba enqueue failed: "@ + why@
            &&& after == before
        },
{
}

/// Where the store could be listed, the list holds every task in flight and every
/// finished one, and nothing else: first those in flight, each under its id as
/// working, then one for each record, of any status, under the record's id as the
/// record says it ended. Where it could not, the client is told why.
pub proof fn list_holds_every_task(
    reply: Result<Vec<Task>, McpError>,
    running: Seq<(Seq<char>, InFlightInfoView)>,
    finished: Result<Vec<ResultRecord>, Error>,
    ttl: Option<u64>,
    now: Seq<char>,
    i: int,
)
    requires
        listing::list_of(reply) == listing::task_list(running, finished, ttl, now),
    ensures
        reply is Ok <==> finished is Ok,
        finished matches Ok(records) ==> {
            &&& reply matches Ok(list)
            &&& list.len() == running.len() + records.len()
            &&& 0 <= i < running.len() ==> {
                &&& list[i].task_id@ == running[i].0
                &&& list[i].status == TaskStatus::Working
                &&& list[i].status_message matches Some(message)
                &&& running[i].1.running ==> message@ == "running"@
                &&& !running[i].1.running ==> message@ == "queued"@
                &&& list[i].created_at@ == time::timestamp(running[i].1.started_at_ms, now)
                &&& list[i].last_updated_at@ == now
                &&& list[i].ttl == ttl
            }
            &&& 0 <= i < records.len() ==> {
                let task = list[running.len() + i];
                let record = records[i];
                &&& task.task_id@ == record.task_id@
                &&& record.status == FinishedStatus::Completed ==> task.status
                    == TaskStatus::Completed
                &&& record.status == FinishedStatus::Failed ==> task.status == TaskStatus::Failed
                &&& record.status == FinishedStatus::Cancelled ==> task.status
                    == TaskStatus::Cancelled
                &&& record.error is None ==> task.status_message is None
                &&& record.error matches Some(why) ==> (task.status_message matches Some(message)
                    && message@ == why@)
                &&& task.created_at@ == time::timestamp(record.completed_at_ms, now)
                &&& task.last_updated_at@ == time::timestamp(record.completed_at_ms, now)
                &&& task.ttl == ttl
            }
        },
        finished matches Err(failure) ==> {
            &&& reply matches Err(error)
            &&& error.kind == McpErrorKind::InternalError
            &&& error.message@ == "result store list failed: "@ + failure.message()
        },
{
    match (finished, reply) {
        (Ok(records), Ok(list)) => {
            let views = listing::task_views(list@);
            assert(views.len() == list.len());
            assert(views.len() == running.len() + records.len());
            if 0 <= i < running.len() {
                assert(views[i] == list[i]@);
            }
            if 0 <= i < records.len() {
                let at = running.len() + i;
                assert(views[at] == list[at]@);
                assert(result_store::record_views(records@)[i] == records[i]@);
                assert(list[at]@.status_message == records[i]@.error);
            }
        },
        _ => {},
    }
}

/// The answer to a request for the list has one task for each task in flight and
/// one for each record, of any status, in that order.
pub proof fn listed_answer_counts_every_task(
    running: Seq<(Seq<char>, InFlightInfoView)>,
    records: Vec<ResultRecord>,
    ttl: Option<u64>,
    now: Seq<char>,
    i: int,
)
    ensures
        listing::task_list(running, Ok(records), ttl, now) matches Ok(list) && {
            &&& list.len() == running.len() + records.len()
            &&& 0 <= i < running.len() ==> list[i].task_id == running[i].0 && list[i].status
                == TaskStatus::Working
            &&& 0 <= i < records.len() ==> list[running.len() + i].task_id == records[i].task_id@
            &&& 0 <= i < records.len() ==> match records[i].status {
                FinishedStatus::Completed => list[running.len() + i].status
                    == TaskStatus::Completed,
                FinishedStatus::Failed => list[running.len() + i].status == TaskStatus::Failed,
                FinishedStatus::Cancelled => list[running.len() + i].status
                    == TaskStatus::Cancelled,
            }
        },
{
    if 0 <= i < records.len() {
        assert(result_store::record_views(records@)[i] == records[i]@);
    }
}

/// Whatever task is cancelled, and whatever there is to say of it, the task that
/// the client is told of is that one.
pub proof fn cancelled_result_names_the_task<S, C>(
    backend: TaqubaTaskBackend<S, C>,
    task_id: &str,
    message: Option<String>,
    now: &str,
    task: Task,
)
    requires
        call_ensures(
            TaqubaTaskBackend::<S, C>::cancelled_result,
            (&backend, task_id, message, now),
            task,
        ),
    ensures
        task.task_id@ == task_id@,
        task.status == TaskStatus::Cancelled,
        message is None <==> task.status_message is None,
        message matches Some(said) ==> (task.status_message matches Some(told) && told@ == said@),
        task.created_at@ == now@,
        task.last_updated_at@ == now@,
        task.ttl matches Some(millis) ==> millis == time::duration_nanos(
            backend.config.result_retention,
        ) / 1_000_000,
        task.ttl is None ==> time::duration_nanos(backend.config.result_retention) / 1_000_000
            > u64::MAX,
{
}

/// A request for a result whose job was found goes on, whatever the job's status.
pub proof fn result_goes_on_for_every_job<S, C>(
    backend: TaqubaTaskBackend<S, C>,
    task_id: &str,
    job: JobRecord,
    step: ResultStep,
)
    requires
        call_ensures(
            TaqubaTaskBackend::<S, C>::result_from_job,
            (&backend, task_id, Ok(Some(job))),
            step,
        ),
    ensures
        step is CheckDeadline,
{
}

/// The list that a client gets names every task in flight and every recorded one,
/// of any status, and has no more entries than these.
pub proof fn list_tasks_names_every_task<S, C>(
    backend: TaqubaTaskBackend<S, C>,
    index: InFlight,
    records: Vec<ResultRecord>,
    now: &str,
    reply: Result<Vec<Task>, McpError>,
    i: int,
)
    requires
        call_ensures(
            TaqubaTaskBackend::<S, C>::list_tasks_at,
            (&backend, &index, Ok(records), now),
            reply,
        ),
    ensures
        reply matches Ok(list) && {
            &&& list.len() == index.listed().len() + records.len()
            &&& 0 <= i < index.listed().len() ==> list[i].task_id@ == index.listed()[i].0
            &&& 0 <= i < records.len() ==> list[index.listed().len() + i].task_id@
                == records[i].task_id@
        },
{
    list_holds_every_task(reply, index.listed(), Ok(records), backend.ttl(), now@, i);
}

} // verus!
