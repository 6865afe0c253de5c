//! What the contents that contracts speak of have to do with the values that
//! callers hold: every field stands for itself, every list keeps its order, every
//! text says what was put into it.
use crate::audit::AuditEntry;
use crate::error::Error;
use crate::in_flight;
use crate::in_flight::{InFlight, InFlightInfo, InFlightInfoView};
use crate::listing;
use crate::outcome;
use crate::pointer;
use crate::pointer::TaskPointer;
use crate::protocol;
use crate::protocol::{McpError, McpErrorKind, Task, TaskStatus};
use crate::queue;
use crate::queue::{CancelOutcome, JobRecord, JobView, NewJob};
use crate::result_store;
use crate::result_store::{FinishedStatus, ResultRecord, ResultRecordView};
use crate::submit;
use crate::text;
use crate::time;
use crate::worker;
use crate::worker::{JobAction, JobActionView, ToolInfo, WorkerSlot};
use rmcp::model::{CallToolResult, ErrorData};
use serde_json::Value;
use std::time::Duration;
use vstd::prelude::*;

verus! {

/// The contents of a task are its fields.
pub proof fn task_holds_its_fields(task: Task)
    ensures
        task@.task_id == task.task_id@,
        task@.status == task.status,
        task.status_message matches Some(message) ==> task@.status_message == Some(message@),
        task.status_message is None ==> task@.status_message is None,
        task@.created_at == task.created_at@,
        task@.last_updated_at == task.last_updated_at@,
        task@.ttl == task.ttl,
{
}

/// The contents of an error are its fields.
pub proof fn mcp_error_holds_its_fields(error: McpError)
    ensures
        error@.kind == error.kind,
        error@.message == error.message@,
{
}

/// The contents of a record are its fields.
pub proof fn record_holds_its_fields(record: ResultRecord)
    ensures
        record@.task_id == record.task_id@,
        record@.tool == record.tool@,
        record@.status == record.status,
        record@.result == record.result,
        record.error matches Some(message) ==> record@.error == Some(message@),
        record.error is None ==> record@.error is None,
        record@.completed_at_ms == record.completed_at_ms,
        record@.expires_at_ms == record.expires_at_ms,
{
}

/// The contents of an audit entry are its fields.
pub proof fn entry_holds_its_fields(entry: AuditEntry)
    ensures
        entry@.event == entry.event,
        entry@.task_id == entry.task_id@,
        entry@.tool == entry.tool@,
        entry@.at_ms == entry.at_ms,
        entry.error matches Some(message) ==> entry@.error == Some(message@),
        entry.error is None ==> entry@.error is None,
{
}

/// The contents of a job are its fields, its headers in their order.
pub proof fn job_holds_its_fields(job: JobRecord, i: int)
    ensures
        job@.id == job.id@,
        job@.queue == job.queue@,
        job@.payload == job.payload@,
        job@.headers.len() == job.headers.len(),
        0 <= i < job.headers.len() ==> job@.headers[i].0 == job.headers[i].0@ && job@.headers[i].1
            == job.headers[i].1@,
        job@.status == job.status,
        job@.attempts == job.attempts,
        job@.max_attempts == job.max_attempts,
        job@.enqueued_at == job.enqueued_at,
{
}

/// The contents of a new job are its fields, its headers in their order.
pub proof fn new_job_holds_its_fields(job: NewJob, i: int)
    ensures
        job@.queue == job.queue@,
        job@.payload == job.payload@,
        job@.headers.len() == job.headers.len(),
        0 <= i < job.headers.len() ==> job@.headers[i].0 == job.headers[i].0@ && job@.headers[i].1
            == job.headers[i].1@,
{
}

/// The contents of an in-flight entry are its fields, and a client is told that
/// the task is running where a worker runs it, and queued where none does.
pub proof fn in_flight_entry_holds_its_fields(info: InFlightInfo)
    ensures
        info@.tool == info.tool@,
        info@.started_at_ms == info.started_at_ms,
        info@.running == info.running,
        info.running ==> info@.message() == "running"@,
        !info.running ==> info@.message() == "queued"@,
        in_flight::info_of(Some(info)) == Some(info@),
        in_flight::info_of(None) is None,
{
}

/// Looking a task up finds what is held under its id, and nothing where nothing
/// is. It is running where what is held says so.
pub proof fn lookup_finds_what_is_held(
    tasks: Map<Seq<char>, InFlightInfoView>,
    task_id: Seq<char>,
)
    ensures
        tasks.dom().contains(task_id) ==> in_flight::lookup(tasks, task_id) == Some(tasks[task_id]),
        !tasks.dom().contains(task_id) ==> in_flight::lookup(tasks, task_id) is None,
        in_flight::is_running(tasks, task_id) <==> tasks.dom().contains(task_id)
            && tasks[task_id].running,
{
}

/// The actions of a plan are those that are carried out, one for one and in
/// order, each with what it holds.
pub proof fn plan_holds_its_actions(actions: Seq<JobAction>, i: int)
    ensures
        worker::plan_of(actions).len() == actions.len(),
        0 <= i < actions.len() ==> match actions[i] {
            JobAction::PutResult(record) => worker::plan_of(actions)[i]
                == JobActionView::PutResult(record@),
            JobAction::RecordAudit(entry) => worker::plan_of(actions)[i]
                == JobActionView::RecordAudit(entry@),
            JobAction::Ack(pointer) => worker::plan_of(actions)[i] == JobActionView::Ack(pointer),
            JobAction::DeadLetter(reason) => worker::plan_of(actions)[i]
                == JobActionView::DeadLetter(reason@),
            JobAction::Nack(reason) => worker::plan_of(actions)[i] == JobActionView::Nack(reason@),
        },
{
}

/// Lists keep their items, one for one and in order.
pub proof fn lists_keep_their_items(
    strings: Seq<String>,
    records: Seq<ResultRecord>,
    tasks: Seq<Task>,
    keys: Seq<Vec<u8>>,
    slots: Seq<WorkerSlot>,
    ids: Seq<Seq<char>>,
    i: int,
)
    ensures
        text::texts(strings).len() == strings.len(),
        0 <= i < strings.len() ==> text::texts(strings)[i] == strings[i]@,
        result_store::record_views(records).len() == records.len(),
        0 <= i < records.len() ==> result_store::record_views(records)[i] == records[i]@,
        listing::task_views(tasks).len() == tasks.len(),
        0 <= i < tasks.len() ==> listing::task_views(tasks)[i] == tasks[i]@,
        pointer::key_bytes(keys).len() == keys.len(),
        0 <= i < keys.len() ==> pointer::key_bytes(keys)[i] == keys[i]@,
        worker::slot_views(slots).len() == slots.len(),
        0 <= i < slots.len() ==> worker::slot_views(slots)[i] == (
            slots[i].tool@,
            slots[i].worker_index,
        ),
        pointer::keys_of(ids).len() == ids.len(),
        0 <= i < ids.len() ==> pointer::keys_of(ids)[i] == vstd::utf8::encode_utf8(
            "mcp:task:"@ + ids[i],
        ),
{
}

/// The key of a pointer is the id of its task behind a fixed scope.
pub proof fn pointer_key_holds_the_id(task_id: Seq<char>)
    ensures
        pointer::key_of(task_id) == vstd::utf8::encode_utf8("mcp:task:"@ + task_id),
        vstd::utf8::decode_utf8(pointer::key_of(task_id)) == "mcp:task:"@ + task_id,
{
    vstd::utf8::encode_utf8_decode_utf8("mcp:task:"@ + task_id);
}

/// What is optional is there or is not, and a text that is there is kept.
pub proof fn optional_text_is_kept(given: String)
    ensures
        text::text_of(Some(given)) == Some(given@),
        text::text_of(None) is None,
{
}

/// What was read is what the reader is told, and a failure is told by what it
/// says.
pub proof fn reads_are_told_as_they_were(
    pointer_read: Result<Option<TaskPointer>, Error>,
    job_read: Result<Option<JobRecord>, String>,
    record_read: Result<Option<ResultRecord>, Error>,
    cancelled: Result<CancelOutcome, String>,
    enqueued: Result<String, String>,
    answer: Result<Task, McpError>,
    payload: Result<Value, McpError>,
    list: Result<Vec<Task>, McpError>,
)
    ensures
        match pointer_read {
            Ok(found) => pointer::pointer_read(pointer_read) == Ok::<
                Option<TaskPointer>,
                Seq<char>,
            >(found),
            Err(error) => pointer::pointer_read(pointer_read) == Err::<
                Option<TaskPointer>,
                Seq<char>,
            >(error.message()),
        },
        match job_read {
            Ok(None) => queue::job_read(job_read) == Ok::<Option<JobView>, Seq<char>>(None),
            Ok(Some(job)) => queue::job_read(job_read) == Ok::<Option<JobView>, Seq<char>>(
                Some(job@),
            ),
            Err(why) => queue::job_read(job_read) == Err::<Option<JobView>, Seq<char>>(why@),
        },
        match record_read {
            Ok(None) => result_store::record_read(record_read) == Ok::<
                Option<ResultRecordView>,
                Seq<char>,
            >(None),
            Ok(Some(record)) => result_store::record_read(record_read) == Ok::<
                Option<ResultRecordView>,
                Seq<char>,
            >(Some(record@)),
            Err(error) => result_store::record_read(record_read) == Err::<
                Option<ResultRecordView>,
                Seq<char>,
            >(error.message()),
        },
        match cancelled {
            Ok(outcome) => crate::cancel::cancel_reply(cancelled) == Ok::<
                CancelOutcome,
                Seq<char>,
            >(outcome),
            Err(why) => crate::cancel::cancel_reply(cancelled) == Err::<CancelOutcome, Seq<char>>(
                why@,
            ),
        },
        match enqueued {
            Ok(task_id) => submit::enqueue_reply(enqueued) == Ok::<Seq<char>, Seq<char>>(task_id@),
            Err(why) => submit::enqueue_reply(enqueued) == Err::<Seq<char>, Seq<char>>(why@),
        },
        match answer {
            Ok(task) => protocol::answer_of(answer) == Ok::<
                protocol::TaskView,
                protocol::McpErrorView,
            >(task@),
            Err(error) => protocol::answer_of(answer) == Err::<
                protocol::TaskView,
                protocol::McpErrorView,
            >(error@),
        },
        match payload {
            Ok(value) => outcome::payload_of(payload) == Ok::<Value, protocol::McpErrorView>(value),
            Err(error) => outcome::payload_of(payload) == Err::<Value, protocol::McpErrorView>(
                error@,
            ),
        },
        match list {
            Ok(tasks) => listing::list_of(list) == Ok::<
                Seq<protocol::TaskView>,
                protocol::McpErrorView,
            >(listing::task_views(tasks@)),
            Err(error) => listing::list_of(list) == Err::<
                Seq<protocol::TaskView>,
                protocol::McpErrorView,
            >(error@),
        },
{
}

/// What a tool has returned is told as it was: its result, or what its error
/// says.
pub proof fn outcomes_are_told_as_they_were(
    outcome: Result<CallToolResult, ErrorData>,
    told: Result<CallToolResult, String>,
)
    ensures
        match outcome {
            Ok(result) => worker::told_outcome(outcome) == Ok::<CallToolResult, Seq<char>>(result),
            Err(error) => worker::told_outcome(outcome) == Err::<CallToolResult, Seq<char>>(
                protocol::tool_error_message(error),
            ),
        },
        match told {
            Ok(result) => worker::outcome_view(told) == Ok::<CallToolResult, Seq<char>>(result),
            Err(message) => worker::outcome_view(told) == Err::<CallToolResult, Seq<char>>(
                message@,
            ),
        },
{
}

/// An error says where it comes from and then what went wrong there, whole.
pub proof fn errors_say_what_went_wrong(message: String)
    ensures
        Error::Taquba(message).message() == "taquba: "@ + message@,
        Error::ObjectStore(message).message() == "object store: "@ + message@,
        Error::Configuration(message).message() == "configuration: "@ + message@,
        Error::Serde(message).message() == "serde: "@ + message@,
{
}

/// The errors of the protocol are told apart by their kind, and say what they
/// are given, whole.
pub proof fn mcp_errors_say_what_they_are_given(what: Seq<char>, detail: Seq<char>)
    ensures
        protocol::internal_error(what, detail).kind == McpErrorKind::InternalError,
        protocol::internal_error(what, detail).message == what + detail,
        protocol::invalid_request(what, detail).kind == McpErrorKind::InvalidRequest,
        protocol::invalid_request(what, detail).message == what + detail,
        protocol::not_found(detail).kind == McpErrorKind::ResourceNotFound,
        protocol::not_found(detail).message == "task not found: "@ + detail,
{
}

/// A task is reported as it ended, by the name of its status.
pub proof fn statuses_are_reported_as_they_are(status: FinishedStatus)
    ensures
        result_store::reported_status(status) == TaskStatus::Completed <==> status
            == FinishedStatus::Completed,
        result_store::reported_status(status) == TaskStatus::Failed <==> status
            == FinishedStatus::Failed,
        result_store::reported_status(status) == TaskStatus::Cancelled <==> status
            == FinishedStatus::Cancelled,
        TaskStatus::Working.label() == "Working"@,
        TaskStatus::InputRequired.label() == "InputRequired"@,
        TaskStatus::Completed.label() == "Completed"@,
        TaskStatus::Failed.label() == "Failed"@,
        TaskStatus::Cancelled.label() == "Cancelled"@,
        <TaskStatus as vstd::std_specs::convert::FromSpec<FinishedStatus>>::obeys_from_spec(),
        <TaskStatus as vstd::std_specs::convert::FromSpec<FinishedStatus>>::from_spec(status)
            == result_store::reported_status(status),
{
}

/// What a client is told of a task names that task, and carries the status, the
/// message, the times and the time to live that it is told with.
pub proof fn told_tasks_carry_what_they_are_told_with(
    task_id: Seq<char>,
    status: TaskStatus,
    message: Seq<char>,
    given: Option<Seq<char>>,
    at_ms: u64,
    ttl: Option<u64>,
    now: Seq<char>,
)
    ensures
        ({
            let task = protocol::working_task(task_id, message, at_ms, ttl, now);
            &&& task.task_id == task_id
            &&& task.status == TaskStatus::Working
            &&& task.status_message == Some(message)
            &&& task.created_at == time::timestamp(at_ms, now)
            &&& task.last_updated_at == now
            &&& task.ttl == ttl
        }),
        ({
            let task = protocol::finished_task(task_id, status, given, at_ms, ttl, now);
            &&& task.task_id == task_id
            &&& task.status == status
            &&& task.status_message == given
            &&& task.created_at == time::timestamp(at_ms, now)
            &&& task.last_updated_at == time::timestamp(at_ms, now)
            &&& task.ttl == ttl
        }),
        ({
            let task = protocol::task_just_now(task_id, status, given, ttl, now);
            &&& task.task_id == task_id
            &&& task.status == status
            &&& task.status_message == given
            &&& task.created_at == now
            &&& task.last_updated_at == now
            &&& task.ttl == ttl
        }),
{
}

/// A time is shown as itself where it can be shown, and as now where it cannot.
pub proof fn times_are_shown_or_are_now(millis: u64, now: Seq<char>)
    ensures
        millis <= i64::MAX && time::rfc3339_text(millis as i64) is Some ==> Some(
            time::timestamp(millis, now),
        ) == time::rfc3339_text(millis as i64),
        millis > i64::MAX || time::rfc3339_text(millis as i64) is None ==> time::timestamp(
            millis,
            now,
        ) == now,
{
}

/// What is kept for a retention has expired at a moment exactly where that
/// moment is at least the retention later, the last moment of all being the
/// latest; what was created at a moment is outdated exactly where that is more
/// than the retention ago; and the time to live is the retention, in whole
/// milliseconds, wherever 64 bits hold them.
pub proof fn retention_decides_what_is_kept(since_ms: u64, at_ms: u64, retention: Duration)
    ensures
        ({
            let kept = time::duration_nanos(retention) / 1_000_000 % 0x1_0000_0000_0000_0000;
            &&& time::expiry(since_ms, retention) <= at_ms <==> since_ms + kept <= at_ms || at_ms
                == u64::MAX
            &&& since_ms < time::cutoff(at_ms, retention) <==> since_ms + kept < at_ms
            &&& time::millis_u64(retention) == kept
        }),
        time::ttl(retention) is Some <==> time::duration_nanos(retention) / 1_000_000 <= u64::MAX,
        time::ttl(retention) matches Some(millis) ==> millis == time::duration_nanos(retention)
            / 1_000_000,
        time::expiry(since_ms, retention) >= since_ms,
        time::cutoff(at_ms, retention) <= at_ms,
{
}

/// Taking the trailing slashes off a text leaves what stands before them: the
/// text begins with it, only `/` follows, and it does not itself end in one.
pub proof fn trimming_takes_slashes_only(given: Seq<char>, i: int)
    ensures
        text::without_trailing_slashes(given).is_prefix_of(given),
        text::without_trailing_slashes(given).len() <= i < given.len() ==> given[i] == '/',
        text::without_trailing_slashes(given).len() > 0 ==> text::without_trailing_slashes(
            given,
        ).last() != '/',
    decreases given.len(),
{
    if given.len() > 0 && given.last() == '/' {
        trimming_takes_slashes_only(given.drop_last(), i);
    }
}

/// The tool of a job is what its first header named `tool` says, and the name of
/// its queue where it has no such header.
pub proof fn job_names_its_tool(job: JobView, i: int)
    ensures
        0 <= i < job.headers.len() && job.headers[i].0 == "tool"@ && (forall|j: int|
            0 <= j < i ==> (#[trigger] job.headers[j]).0 != "tool"@) ==> job.tool_header() == Some(
            job.headers[i].1,
        ) && job.tool() == job.headers[i].1,
        (forall|j: int| 0 <= j < job.headers.len() ==> (#[trigger] job.headers[j]).0 != "tool"@)
            ==> job.tool_header() is None && job.tool() == job.queue,
    decreases job.headers.len(),
{
    if job.headers.len() > 0 && job.headers[0].0 != "tool"@ {
        let rest = JobView { headers: job.headers.skip(1), ..job };
        job_names_its_tool(rest, i - 1);
        assert forall|j: int| 0 <= j < rest.headers.len() implies #[trigger] rest.headers[j]
            == job.headers[j + 1] by {}
    }
}

/// A tool takes tasks where it may, or must, be invoked as one.
pub proof fn tools_take_tasks_by_their_support(tool: ToolInfo)
    ensures
        worker::takes_tasks(tool) <==> !(tool.task_support == worker::TaskSupport::Forbidden),
{
}

/// The tasks and errors that are made for a client hold what they are made from,
/// each in its place.
pub proof fn made_tasks_and_errors_hold_their_parts(
    task_id: &str,
    status: TaskStatus,
    said: &str,
    message: Option<String>,
    at_ms: u64,
    ttl: Option<u64>,
    now: &str,
    working: Task,
    finished: Task,
    changed: Task,
    internal: McpError,
    invalid: McpError,
    missing: McpError,
)
    requires
        call_ensures(Task::working, (task_id, said, at_ms, ttl, now), working),
        call_ensures(Task::finished, (task_id, status, message, at_ms, ttl, now), finished),
        call_ensures(Task::just_now, (task_id, status, message, ttl, now), changed),
        call_ensures(McpError::internal_error, (said, now), internal),
        call_ensures(McpError::invalid_request, (said, now), invalid),
        call_ensures(McpError::not_found, (task_id,), missing),
    ensures
        working.task_id@ == task_id@,
        working.status == TaskStatus::Working,
        working.status_message matches Some(told) && told@ == said@,
        working.created_at@ == time::timestamp(at_ms, now@),
        working.last_updated_at@ == now@,
        working.ttl == ttl,
        finished.task_id@ == task_id@,
        finished.status == status,
        message is None <==> finished.status_message is None,
        message matches Some(given) ==> (finished.status_message matches Some(told) && told@
            == given@),
        finished.created_at@ == time::timestamp(at_ms, now@),
        finished.last_updated_at@ == time::timestamp(at_ms, now@),
        finished.ttl == ttl,
        changed.task_id@ == task_id@,
        changed.status == status,
        message is None <==> changed.status_message is None,
        message matches Some(given) ==> (changed.status_message matches Some(told) && told@
            == given@),
        changed.created_at@ == now@,
        changed.last_updated_at@ == now@,
        changed.ttl == ttl,
        internal.kind == McpErrorKind::InternalError && internal.message@ == said@ + now@,
        invalid.kind == McpErrorKind::InvalidRequest && invalid.message@ == said@ + now@,
        missing.kind == McpErrorKind::ResourceNotFound && missing.message@ == "task not found: "@
            + task_id@,
{
}

/// What the index tells of a task is what it holds under the task's id.
pub proof fn index_tells_what_it_holds(
    index: InFlight,
    task_id: &str,
    found: Option<InFlightInfo>,
    contained: bool,
)
    requires
        call_ensures(InFlight::get, (&index, task_id), found),
        call_ensures(InFlight::contains_key, (&index, task_id), contained),
    ensures
        contained <==> index@.dom().contains(task_id@),
        found is Some <==> contained,
        found matches Some(info) ==> info.tool@ == index@[task_id@].tool && info.started_at_ms
            == index@[task_id@].started_at_ms && info.running == index@[task_id@].running,
{
}

} // verus!
