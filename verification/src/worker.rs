//! The worker pool that takes task jobs from the queue and invokes tools.
//!
//! Tasks land in a queue named after the tool. Each worker claims jobs from one
//! queue, invokes the tool, writes the result blob and settles the job.
use crate::audit;
use crate::audit::{AuditEntry, AuditEntryView, AuditEvent, AuditLog};
use crate::backend::TaqubaTaskBackendConfig;
use crate::error::Error;
use crate::in_flight::{InFlight, InFlightInfo, InFlightInfoView};
use crate::pointer;
use crate::pointer::TaskPointer;
use crate::protocol;
use crate::queue;
use crate::queue::{JobRecord, JobView, QueueConfig};
use crate::result_store::{FinishedStatus, ResultRecord, ResultRecordView};
use crate::text;
use crate::time;
use rmcp::model::{CallToolRequestParams, CallToolResult, ErrorData};
use std::time::Duration;
use vstd::prelude::*;

verus! {

/// Retry policy applied to durable tool invocations.
///
/// Maps onto the retry parameters of a queue, applying the same policy to every
/// task-eligible tool.
#[derive(Debug, Clone, Copy)]
#[non_exhaustive]
pub struct RetryPolicy {
    /// Maximum number of attempts before the job is dead-lettered.
    pub max_attempts: u32,
    /// Initial backoff between retries.
    pub initial_backoff: Duration,
    /// Maximum backoff between retries.
    pub max_backoff: Duration,
}

/// The policy that is used unless another is set: five attempts, waiting half a
/// second at first and a minute at most.
pub open spec fn is_exponential(policy: RetryPolicy) -> bool {
    &&& policy.max_attempts == 5
    &&& time::duration_nanos(policy.initial_backoff) == 500_000_000
    &&& time::duration_nanos(policy.max_backoff) == 60_000_000_000
}

impl Default for RetryPolicy {
    fn default() -> (policy: RetryPolicy)
        ensures
            is_exponential(policy),
    {
        RetryPolicy::exponential()
    }
}

impl RetryPolicy {
    /// A reasonable default: exponential backoff up to 5 attempts.
    pub fn exponential() -> (policy: RetryPolicy)
        ensures
            is_exponential(policy),
    {
        RetryPolicy {
            max_attempts: 5,
            initial_backoff: Duration::from_millis(500),
            max_backoff: Duration::from_secs(60),
        }
    }

    /// Disable retries; one attempt only. A failure dead-letters immediately.
    pub fn never() -> (policy: RetryPolicy)
        ensures
            policy.max_attempts == 1,
            time::duration_nanos(policy.initial_backoff) == 0,
            time::duration_nanos(policy.max_backoff) == 0,
    {
        RetryPolicy {
            max_attempts: 1,
            initial_backoff: Duration::from_secs(0),
            max_backoff: Duration::from_secs(0),
        }
    }

    /// Override the maximum attempt count.
    pub fn max_attempts(self, n: u32) -> (policy: RetryPolicy)
        ensures
            policy == (RetryPolicy { max_attempts: n, ..self }),
    {
        RetryPolicy { max_attempts: n, ..self }
    }

    /// Override the initial backoff between retries.
    pub fn initial_backoff(self, d: Duration) -> (policy: RetryPolicy)
        ensures
            policy == (RetryPolicy { initial_backoff: d, ..self }),
    {
        RetryPolicy { initial_backoff: d, ..self }
    }

    /// Override the maximum backoff between retries.
    pub fn max_backoff(self, d: Duration) -> (policy: RetryPolicy)
        ensures
            policy == (RetryPolicy { max_backoff: d, ..self }),
    {
        RetryPolicy { max_backoff: d, ..self }
    }

    /// The queue parameters that carry the policy out.
    pub fn to_queue_config(&self) -> (config: QueueConfig)
        ensures
            config == (QueueConfig {
                max_attempts: self.max_attempts,
                retry_backoff_base: self.initial_backoff,
                retry_backoff_max: self.max_backoff,
                default_priority: 1_000,
            }),
    {
        QueueConfig {
            max_attempts: self.max_attempts,
            retry_backoff_base: self.initial_backoff,
            retry_backoff_max: self.max_backoff,
            default_priority: queue::normal_priority(),
        }
    }
}

/// One thing to do about a job.
#[derive(Debug)]
pub enum JobAction {
    /// Write a result blob.
    PutResult(ResultRecord),
    /// Append to the audit log.
    RecordAudit(AuditEntry),
    /// Acknowledge the job and commit the terminal pointer, in one transaction.
    Ack(TaskPointer),
    /// Move the job to the dead letters, for this reason.
    DeadLetter(String),
    /// Give the job back to the queue to be retried, for this reason.
    Nack(String),
}

/// The contents of a [`JobAction`].
pub enum JobActionView {
    /// Write a result blob.
    PutResult(ResultRecordView),
    /// Append to the audit log.
    RecordAudit(AuditEntryView),
    /// Acknowledge the job and commit the terminal pointer, in one transaction.
    Ack(TaskPointer),
    /// Move the job to the dead letters.
    DeadLetter(Seq<char>),
    /// Give the job back to the queue to be retried.
    Nack(Seq<char>),
}

impl View for JobAction {
    type V = JobActionView;

    open spec fn view(&self) -> JobActionView {
        match self {
            JobAction::PutResult(record) => JobActionView::PutResult(record@),
            JobAction::RecordAudit(entry) => JobActionView::RecordAudit(entry@),
            JobAction::Ack(pointer) => JobActionView::Ack(*pointer),
            JobAction::DeadLetter(reason) => JobActionView::DeadLetter(reason@),
            JobAction::Nack(reason) => JobActionView::Nack(reason@),
        }
    }
}

/// The contents of several actions.
pub open spec fn plan_of(actions: Seq<JobAction>) -> Seq<JobActionView> {
    actions.map_values(|action: JobAction| action@)
}

/// The record of a task that ended at `now_ms` and is kept for `retention`.
pub open spec fn finished_record(
    task_id: Seq<char>,
    tool: Seq<char>,
    status: FinishedStatus,
    result: Option<CallToolResult>,
    error: Option<Seq<char>>,
    now_ms: u64,
    retention: Duration,
) -> ResultRecordView {
    ResultRecordView {
        task_id,
        tool,
        status,
        result,
        error,
        completed_at_ms: now_ms,
        expires_at_ms: time::expiry(now_ms, retention),
    }
}

/// The pointer of a task that ended at `now_ms` and is kept for `retention`.
pub open spec fn terminal_pointer(
    status: FinishedStatus,
    now_ms: u64,
    retention: Duration,
) -> TaskPointer {
    TaskPointer {
        status,
        completed_at_ms: now_ms,
        expires_at_ms: time::expiry(now_ms, retention),
    }
}

/// The audit entry of an event at `at_ms`.
pub open spec fn event_entry(
    event: AuditEvent,
    task_id: Seq<char>,
    tool: Seq<char>,
    at_ms: u64,
    error: Option<Seq<char>>,
) -> AuditEntryView {
    AuditEntryView { event, task_id, tool, at_ms, error }
}

/// What to write for a task that failed for good: its record and its entry.
pub open spec fn failure_writes(
    task_id: Seq<char>,
    tool: Seq<char>,
    message: Seq<char>,
    now_ms: u64,
    retention: Duration,
) -> Seq<JobActionView> {
    seq![
        JobActionView::PutResult(
            finished_record(
                task_id,
                tool,
                FinishedStatus::Failed,
                None,
                Some(message),
                now_ms,
                retention,
            ),
        ),
        JobActionView::RecordAudit(
            event_entry(AuditEvent::Failed, task_id, tool, now_ms, Some(message)),
        ),
    ]
}

/// What to write for a task that was cancelled: its record and its entry.
pub open spec fn cancellation_writes(
    task_id: Seq<char>,
    tool: Seq<char>,
    now_ms: u64,
    retention: Duration,
) -> Seq<JobActionView> {
    seq![
        JobActionView::PutResult(
            finished_record(
                task_id,
                tool,
                FinishedStatus::Cancelled,
                None,
                None,
                now_ms,
                retention,
            ),
        ),
        JobActionView::RecordAudit(
            event_entry(AuditEvent::Cancelled, task_id, tool, now_ms, None),
        ),
    ]
}

/// What to write for a task that completed: its record and its entry.
pub open spec fn completion_writes(
    task_id: Seq<char>,
    tool: Seq<char>,
    result: CallToolResult,
    now_ms: u64,
    retention: Duration,
) -> Seq<JobActionView> {
    seq![
        JobActionView::PutResult(
            finished_record(
                task_id,
                tool,
                FinishedStatus::Completed,
                Some(result),
                None,
                now_ms,
                retention,
            ),
        ),
        JobActionView::RecordAudit(
            event_entry(AuditEvent::Completed, task_id, tool, now_ms, None),
        ),
    ]
}

/// What to do about a job whose payload holds no request: it can never succeed,
/// so it is recorded as failed and goes to the dead letters.
pub open spec fn rejection(
    job: JobView,
    why: Seq<char>,
    now_ms: u64,
    retention: Duration,
) -> Seq<JobActionView> {
    failure_writes(
        job.id,
        job.tool(),
        "payload deserialization failed: "@ + why,
        now_ms,
        retention,
    ).push(JobActionView::DeadLetter("payload deserialization failed"@))
}

/// Whether a job that fails now has no further attempt. The attempts of a claimed
/// job count the one that is running.
pub open spec fn is_last_attempt(job: JobView) -> bool {
    job.attempts >= job.max_attempts
}

/// What to do about a job whose tool has returned, in order.
///
/// - A result completes the task, whether or not cancellation was requested.
/// - An error after a requested cancellation cancels it; the job is done with
///   and not retried.
/// - Any other error is retried as long as attempts are left. After the last
///   one the task has failed and the job goes to the dead letters.
pub open spec fn settlement(
    job: JobView,
    outcome: Result<CallToolResult, Seq<char>>,
    was_cancelled: bool,
    now_ms: u64,
    retention: Duration,
) -> Seq<JobActionView> {
    match outcome {
        Ok(result) => completion_writes(job.id, job.tool(), result, now_ms, retention).push(
            JobActionView::Ack(terminal_pointer(FinishedStatus::Completed, now_ms, retention)),
        ),
        Err(message) => {
            if was_cancelled {
                cancellation_writes(job.id, job.tool(), now_ms, retention).push(
                    JobActionView::Ack(
                        terminal_pointer(FinishedStatus::Cancelled, now_ms, retention),
                    ),
                )
            } else if is_last_attempt(job) {
                failure_writes(job.id, job.tool(), message, now_ms, retention).push(
                    JobActionView::DeadLetter(message),
                )
            } else {
                seq![
                    JobActionView::RecordAudit(
                        event_entry(
                            AuditEvent::Failed,
                            job.id,
                            job.tool(),
                            now_ms,
                            Some(message),
                        ),
                    ),
                    JobActionView::Nack(message),
                ]
            }
        },
    }
}

/// What a tool has returned: its result, or what its error says.
pub open spec fn told_outcome(outcome: Result<CallToolResult, ErrorData>) -> Result<
    CallToolResult,
    Seq<char>,
> {
    match outcome {
        Ok(result) => Ok(result),
        Err(error) => Err(protocol::tool_error_message(error)),
    }
}

/// The outcome of a tool whose error is given by its message.
pub open spec fn outcome_view(outcome: Result<CallToolResult, String>) -> Result<
    CallToolResult,
    Seq<char>,
> {
    match outcome {
        Ok(result) => Ok(result),
        Err(message) => Err(message@),
    }
}

/// The writes for a task that failed for good.
pub fn write_failed(
    task_id: &str,
    tool: &str,
    error_message: String,
    now_ms: u64,
    retention: Duration,
) -> (actions: Vec<JobAction>)
    ensures
        plan_of(actions@) == failure_writes(task_id@, tool@, error_message@, now_ms, retention),
{
    let record: ResultRecord = ResultRecord {
        task_id: task_id.to_owned(),
        tool: tool.to_owned(),
        status: FinishedStatus::Failed,
        result: None,
        error: Some(error_message.clone()),
        completed_at_ms: now_ms,
        expires_at_ms: time::expires_at_ms(now_ms, retention),
    };
    let entry: AuditEntry = audit::entry(
        AuditEvent::Failed,
        task_id,
        tool,
        now_ms,
        Some(error_message),
    );
    let mut actions: Vec<JobAction> = Vec::new();
    actions.push(JobAction::PutResult(record));
    actions.push(JobAction::RecordAudit(entry));
    assert(plan_of(actions@) =~= failure_writes(
        task_id@,
        tool@,
        error_message@,
        now_ms,
        retention,
    ));
    actions
}

/// The writes for a task that was cancelled, with one timestamp for both.
pub fn write_cancelled(
    task_id: &str,
    tool: &str,
    now_ms: u64,
    retention: Duration,
) -> (actions: Vec<JobAction>)
    ensures
        plan_of(actions@) == cancellation_writes(task_id@, tool@, now_ms, retention),
{
    let record: ResultRecord = ResultRecord {
        task_id: task_id.to_owned(),
        tool: tool.to_owned(),
        status: FinishedStatus::Cancelled,
        result: None,
        error: None,
        completed_at_ms: now_ms,
        expires_at_ms: time::expires_at_ms(now_ms, retention),
    };
    let entry: AuditEntry = audit::entry(AuditEvent::Cancelled, task_id, tool, now_ms, None);
    let mut actions: Vec<JobAction> = Vec::new();
    actions.push(JobAction::PutResult(record));
    actions.push(JobAction::RecordAudit(entry));
    assert(plan_of(actions@) =~= cancellation_writes(task_id@, tool@, now_ms, retention));
    actions
}

/// The writes for a task that completed.
pub fn write_completed(
    task_id: &str,
    tool: &str,
    result: CallToolResult,
    now_ms: u64,
    retention: Duration,
) -> (actions: Vec<JobAction>)
    ensures
        plan_of(actions@) == completion_writes(task_id@, tool@, result, now_ms, retention),
{
    let record: ResultRecord = ResultRecord {
        task_id: task_id.to_owned(),
        tool: tool.to_owned(),
        status: FinishedStatus::Completed,
        result: Some(result),
        error: None,
        completed_at_ms: now_ms,
        expires_at_ms: time::expires_at_ms(now_ms, retention),
    };
    let entry: AuditEntry = audit::entry(AuditEvent::Completed, task_id, tool, now_ms, None);
    let mut actions: Vec<JobAction> = Vec::new();
    actions.push(JobAction::PutResult(record));
    actions.push(JobAction::RecordAudit(entry));
    assert(plan_of(actions@) =~= completion_writes(task_id@, tool@, result, now_ms, retention));
    actions
}

/// Adds one action to a plan.
fn and_next(actions: Vec<JobAction>, action: JobAction) -> (longer: Vec<JobAction>)
    ensures
        plan_of(longer@) == plan_of(actions@).push(action@),
{
    let mut longer: Vec<JobAction> = actions;
    longer.push(action);
    assert(plan_of(longer@) =~= plan_of(actions@).push(action@));
    longer
}

/// What a claimed job comes to before its tool is called.
#[derive(Debug)]
pub enum JobStart {
    /// The payload holds no request; the task is no longer in flight, and all
    /// that is left is to carry this out.
    Reject(Vec<JobAction>),
    /// The task is now running: record that it has started and call the tool.
    Run {
        /// The entry that the task has started.
        started: AuditEntry,
        /// What to call the tool with.
        request: CallToolRequestParams,
    },
}

/// Whether `start` is what a claimed job comes to at `now_ms`, given the request
/// that its payload holds or why it holds none, and how the index of tasks in
/// flight changes.
pub open spec fn is_start(
    start: JobStart,
    job: JobView,
    parsed: Result<CallToolRequestParams, Seq<char>>,
    before: Map<Seq<char>, InFlightInfoView>,
    after: Map<Seq<char>, InFlightInfoView>,
    now_ms: u64,
    retention: Duration,
) -> bool {
    match (parsed, start) {
        (Err(why), JobStart::Reject(actions)) => {
            &&& plan_of(actions@) == rejection(job, why, now_ms, retention)
            &&& after == before.remove(job.id)
        },
        (Ok(parsed), JobStart::Run { started, request }) => {
            &&& request == parsed
            &&& started@ == event_entry(AuditEvent::Started, job.id, job.tool(), now_ms, None)
            &&& after == before.insert(
                job.id,
                InFlightInfoView { tool: job.tool(), started_at_ms: now_ms, running: true },
            )
        },
        _ => false,
    }
}

/// The request that a payload holds, or what the error says that it holds none.
pub open spec fn payload_request(payload: Seq<u8>) -> Result<CallToolRequestParams, Seq<char>> {
    match protocol::parsed_request(payload) {
        Ok(request) => Ok(request),
        Err(error) => Err(protocol::json_error_message(error)),
    }
}

/// Decides what to do with a job that was claimed at `now_ms`.
pub fn start_job(
    job: &JobRecord,
    in_flight: &mut InFlight,
    now_ms: u64,
    retention: Duration,
) -> (start: JobStart)
    ensures
        is_start(
            start,
            job@,
            payload_request(job@.payload),
            old(in_flight)@,
            final(in_flight)@,
            now_ms,
            retention,
        ),
{
    let parsed: Result<CallToolRequestParams, String> = match protocol::decode_request(
        job.payload.as_slice(),
    ) {
        Ok(request) => Ok(request),
        Err(error) => Err(protocol::json_error_text(&error)),
    };
    start_parsed_job(job, parsed, in_flight, now_ms, retention)
}

/// Decides what to do with a job that was claimed at `now_ms`, given the request
/// that its payload holds, or why it holds none.
pub fn start_parsed_job(
    job: &JobRecord,
    parsed: Result<CallToolRequestParams, String>,
    in_flight: &mut InFlight,
    now_ms: u64,
    retention: Duration,
) -> (start: JobStart)
    ensures
        is_start(
            start,
            job@,
            match parsed {
                Ok(request) => Ok(request),
                Err(why) => Err(why@),
            },
            old(in_flight)@,
            final(in_flight)@,
            now_ms,
            retention,
        ),
{
    let tool: String = job.tool();
    match parsed {
        Err(why) => {
            let _ = in_flight.remove(job.id.as_str());
            let message: String = text::join("payload deserialization failed: ", why.as_str());
            let writes: Vec<JobAction> = write_failed(
                job.id.as_str(),
                tool.as_str(),
                message,
                now_ms,
                retention,
            );
            let reason: String = "payload deserialization failed".to_owned();
            JobStart::Reject(and_next(writes, JobAction::DeadLetter(reason)))
        },
        Ok(request) => {
            let started: AuditEntry = audit::entry(
                AuditEvent::Started,
                job.id.as_str(),
                tool.as_str(),
                now_ms,
                None,
            );
            mark_in_flight(in_flight, job.id.as_str(), tool.as_str(), now_ms);
            JobStart::Run { started, request }
        },
    }
}

/// Remembers that a worker is running a task since `now_ms`.
pub fn mark_in_flight(in_flight: &mut InFlight, task_id: &str, tool: &str, now_ms: u64)
    ensures
        final(in_flight)@ == old(in_flight)@.insert(
            task_id@,
            InFlightInfoView { tool: tool@, started_at_ms: now_ms, running: true },
        ),
{
    in_flight.insert(
        task_id.to_owned(),
        InFlightInfo { tool: tool.to_owned(), started_at_ms: now_ms, running: true },
    );
}

/// Decides what to do about a job whose tool has returned `outcome` at
/// `now_ms`. The task is no longer in flight.
pub fn settle_job(
    job: &JobRecord,
    outcome: Result<CallToolResult, ErrorData>,
    was_cancelled: bool,
    in_flight: &mut InFlight,
    now_ms: u64,
    retention: Duration,
) -> (actions: Vec<JobAction>)
    ensures
        final(in_flight)@ == old(in_flight)@.remove(job@.id),
        plan_of(actions@) == settlement(
            job@,
            told_outcome(outcome),
            was_cancelled,
            now_ms,
            retention,
        ),
{
    let told: Result<CallToolResult, String> = match outcome {
        Ok(result) => Ok(result),
        Err(error) => Err(protocol::tool_error_text(&error)),
    };
    settle_told_job(job, told, was_cancelled, in_flight, now_ms, retention)
}

/// Decides what to do about a job whose tool has returned a result, or an error
/// with the given message, at `now_ms`. The task is no longer in flight.
pub fn settle_told_job(
    job: &JobRecord,
    outcome: Result<CallToolResult, String>,
    was_cancelled: bool,
    in_flight: &mut InFlight,
    now_ms: u64,
    retention: Duration,
) -> (actions: Vec<JobAction>)
    ensures
        final(in_flight)@ == old(in_flight)@.remove(job@.id),
        plan_of(actions@) == settlement(
            job@,
            outcome_view(outcome),
            was_cancelled,
            now_ms,
            retention,
        ),
{
    let _ = in_flight.remove(job.id.as_str());
    let tool: String = job.tool();
    match outcome {
        Ok(result) => {
            let writes: Vec<JobAction> = write_completed(
                job.id.as_str(),
                tool.as_str(),
                result,
                now_ms,
                retention,
            );
            let pointer: TaskPointer = TaskPointer {
                status: FinishedStatus::Completed,
                completed_at_ms: now_ms,
                expires_at_ms: time::expires_at_ms(now_ms, retention),
            };
            and_next(writes, JobAction::Ack(pointer))
        },
        Err(message) => if was_cancelled {
            let writes: Vec<JobAction> = write_cancelled(
                job.id.as_str(),
                tool.as_str(),
                now_ms,
                retention,
            );
            let pointer: TaskPointer = TaskPointer {
                status: FinishedStatus::Cancelled,
                completed_at_ms: now_ms,
                expires_at_ms: time::expires_at_ms(now_ms, retention),
            };
            and_next(writes, JobAction::Ack(pointer))
        } else if job.attempts >= job.max_attempts {
            let writes: Vec<JobAction> = write_failed(
                job.id.as_str(),
                tool.as_str(),
                message.clone(),
                now_ms,
                retention,
            );
            and_next(writes, JobAction::DeadLetter(message))
        } else {
            let entry: AuditEntry = audit::entry(
                AuditEvent::Failed,
                job.id.as_str(),
                tool.as_str(),
                now_ms,
                Some(message.clone()),
            );
            let mut actions: Vec<JobAction> = Vec::new();
            actions.push(JobAction::RecordAudit(entry));
            actions.push(JobAction::Nack(message));
            assert(plan_of(actions@) =~= settlement(
                job@,
                outcome_view(outcome),
                was_cancelled,
                now_ms,
                retention,
            ));
            actions
        },
    }
}

/// The KV writes to commit with the ack of a task that ended on the ack path:
/// the encoded pointer under the task's key. A pointer that could not be
/// encoded leaves the ack without writes rather than the job unsettled.
pub fn pointer_effects(task_id: &str, encoded: Result<Vec<u8>, String>) -> (writes: Vec<
    (Vec<u8>, Vec<u8>),
>)
    ensures
        match encoded {
            Ok(bytes) => writes.len() == 1 && writes[0].0@ == pointer::key_of(task_id@)
                && writes[0].1@ == bytes@,
            Err(_) => writes.len() == 0,
        },
{
    let mut writes: Vec<(Vec<u8>, Vec<u8>)> = Vec::new();
    match encoded {
        Ok(bytes) => {
            writes.push((pointer::pointer_key(task_id), bytes));
        },
        Err(_) => {},
    }
    writes
}

/// Whether a tool may, or must, be invoked as a task.
#[derive(Debug, Clone, Copy, PartialEq, Eq, Structural)]
pub enum TaskSupport {
    /// It must not.
    Forbidden,
    /// It may.
    Optional,
    /// It must.
    Required,
}

/// A tool that the server offers.
#[derive(Debug, Clone)]
pub struct ToolInfo {
    /// Its name.
    pub name: String,
    /// Whether it can be invoked as a task.
    pub task_support: TaskSupport,
}

/// Whether a tool can be invoked as a task.
pub open spec fn takes_tasks(tool: ToolInfo) -> bool {
    tool.task_support == TaskSupport::Optional || tool.task_support == TaskSupport::Required
}

/// The names of the tools that can be invoked as tasks, in order.
pub open spec fn task_tools(tools: Seq<ToolInfo>) -> Seq<Seq<char>> {
    tools.filter(|tool: ToolInfo| takes_tasks(tool)).map_values(|tool: ToolInfo| tool.name@)
}

/// The task-eligible tools of a listing are those of the listing without its
/// last tool, and that tool where it is eligible.
proof fn lemma_task_tools(tools: Seq<ToolInfo>)
    ensures
        tools.len() == 0 ==> task_tools(tools) == Seq::<Seq<char>>::empty(),
        tools.len() > 0 ==> task_tools(tools) == if takes_tasks(tools.last()) {
            task_tools(tools.drop_last()).push(tools.last().name@)
        } else {
            task_tools(tools.drop_last())
        },
{
    let keep = |tool: ToolInfo| takes_tasks(tool);
    let name = |tool: ToolInfo| tool.name@;
    reveal(Seq::filter);
    if tools.len() > 0 {
        let kept = tools.drop_last().filter(keep);
        assert(kept.push(tools.last()).map_values(name) =~= kept.map_values(name).push(
            tools.last().name@,
        ));
    } else {
        assert(tools.filter(keep).map_values(name) =~= Seq::empty());
    }
}

/// The tools that workers are started for: those of the server's listing that
/// can be invoked as tasks. A listing that failed is a configuration error.
pub fn discover_task_tools(listed: Result<Vec<ToolInfo>, ErrorData>) -> (tools: Result<
    Vec<String>,
    Error,
>)
    ensures
        match (listed, tools) {
            (Ok(listed), Ok(tools)) => text::texts(tools@) == task_tools(listed@),
            (Err(failure), Err(Error::Configuration(message))) => message@
                == "list_tools failed during worker bootstrap: "@ + protocol::tool_error_message(
                failure,
            ),
            _ => false,
        },
{
    match listed {
        Ok(listed) => Ok(filter_task_tools(&listed)),
        Err(failure) => {
            let why: String = protocol::tool_error_text(&failure);
            Err(
                Error::Configuration(
                    text::join("list_tools failed during worker bootstrap: ", why.as_str()),
                ),
            )
        },
    }
}

/// The names of the tools that can be invoked as tasks, in order.
pub fn filter_task_tools(listed: &Vec<ToolInfo>) -> (tools: Vec<String>)
    ensures
        text::texts(tools@) == task_tools(listed@),
{
    let mut tools: Vec<String> = Vec::new();
    let mut next: usize = 0;
    proof {
        lemma_task_tools(listed@.take(0));
        assert(text::texts(tools@) =~= Seq::empty());
    }
    while next < listed.len()
        invariant
            next <= listed.len(),
            text::texts(tools@) == task_tools(listed@.take(next as int)),
        decreases listed.len() - next,
    {
        let ghost before: Seq<String> = tools@;
        let tool: &ToolInfo = &listed[next];
        proof {
            lemma_task_tools(listed@.take(next + 1));
            assert(listed@.take(next + 1).drop_last() =~= listed@.take(next as int));
        }
        match tool.task_support {
            TaskSupport::Optional | TaskSupport::Required => {
                tools.push(tool.name.clone());
                assert(text::texts(tools@) =~= text::texts(before).push(tool.name@));
            },
            TaskSupport::Forbidden => {},
        }
        next = next + 1;
    }
    assert(listed@.take(next as int) =~= listed@);
    tools
}

/// One worker of the pool.
#[derive(Debug, Clone)]
pub struct WorkerSlot {
    /// The tool whose queue it works on.
    pub tool: String,
    /// Which of the tool's workers it is.
    pub worker_index: usize,
}

/// The contents of worker slots.
pub open spec fn slot_views(slots: Seq<WorkerSlot>) -> Seq<(Seq<char>, usize)> {
    slots.map_values(|slot: WorkerSlot| (slot.tool@, slot.worker_index))
}

/// The first `count` workers of one tool.
pub open spec fn tool_slots(tool: Seq<char>, count: nat) -> Seq<(Seq<char>, usize)> {
    Seq::new(count, |index: int| (tool, index as usize))
}

/// `per_tool` workers for each tool, tool after tool.
pub open spec fn pool_slots(tools: Seq<Seq<char>>, per_tool: nat) -> Seq<(Seq<char>, usize)>
    decreases tools.len(),
{
    if tools.len() == 0 {
        Seq::empty()
    } else {
        pool_slots(tools.drop_last(), per_tool) + tool_slots(tools.last(), per_tool)
    }
}

/// What the pool consists of.
#[derive(Debug)]
pub enum Pool {
    /// No tool can be invoked as a task, or nothing would run; there is nothing
    /// to do but to wait for shutdown.
    Idle,
    /// Workers run, and the reaper beside them where it is enabled.
    Running {
        /// The workers.
        workers: Vec<WorkerSlot>,
        /// Whether the reaper runs.
        reaper: bool,
    },
}

/// Whether there is nothing for a pool to run: no tool that can be invoked as a
/// task, or neither a worker nor the reaper.
pub open spec fn is_idle(tools: nat, workers_per_tool: usize, enable_reaper: bool) -> bool {
    tools == 0 || (workers_per_tool == 0 && !enable_reaper)
}

/// The pool for the given tools.
pub fn plan_workers(tools: &Vec<String>, workers_per_tool: usize, enable_reaper: bool) -> (pool:
    Pool)
    ensures
        match pool {
            Pool::Idle => is_idle(tools.len() as nat, workers_per_tool, enable_reaper),
            Pool::Running { workers, reaper } => {
                &&& !is_idle(tools.len() as nat, workers_per_tool, enable_reaper)
                &&& slot_views(workers@) == pool_slots(
                    text::texts(tools@),
                    workers_per_tool as nat,
                )
                &&& reaper == enable_reaper
            },
        },
{
    if tools.len() == 0 || (workers_per_tool == 0 && !enable_reaper) {
        return Pool::Idle;
    }
    let ghost names: Seq<Seq<char>> = text::texts(tools@);
    let ghost per_tool: nat = workers_per_tool as nat;
    let mut workers: Vec<WorkerSlot> = Vec::new();
    let mut next: usize = 0;
    while next < tools.len()
        invariant
            next <= tools.len(),
            names == text::texts(tools@),
            per_tool == workers_per_tool,
            slot_views(workers@) =~= pool_slots(names.take(next as int), per_tool),
        decreases tools.len() - next,
    {
        let ghost before: Seq<WorkerSlot> = workers@;
        let tool: &String = &tools[next];
        let mut index: usize = 0;
        while index < workers_per_tool
            invariant
                index <= workers_per_tool,
                slot_views(workers@) =~= slot_views(before) + tool_slots(tool@, index as nat),
            decreases workers_per_tool - index,
        {
            let ghost so_far: Seq<WorkerSlot> = workers@;
            workers.push(WorkerSlot { tool: tool.clone(), worker_index: index });
            assert(slot_views(workers@) =~= slot_views(so_far).push((tool@, index)));
            index = index + 1;
        }
        assert(names.take(next + 1).drop_last() =~= names.take(next as int));
        next = next + 1;
    }
    assert(names.take(next as int) =~= names);
    Pool::Running { workers, reaper: enable_reaper }
}

/// One request of a worker for a job.
#[derive(Debug)]
pub struct Claim {
    /// The queue to claim from.
    pub queue: String,
    /// How long the claim holds.
    pub lease: Duration,
    /// How long to wait for a job.
    pub wait: Duration,
}

/// What a worker asks for: a job of the queue that is named after its tool, with
/// that queue's lease.
pub fn next_claim(slot: &WorkerSlot, lease: Duration) -> (claim: Claim)
    ensures
        claim.queue@ == slot.tool@,
        claim.lease == lease,
        time::duration_nanos(claim.wait) == 5_000_000_000,
{
    Claim { queue: slot.tool.clone(), lease, wait: Duration::from_secs(5) }
}

/// What a worker learned when it asked its queue for a job.
#[derive(Debug)]
pub enum ClaimOutcome {
    /// The server is shutting down; no job was claimed.
    Shutdown,
    /// A job was claimed.
    Claimed(JobRecord),
    /// No job came within the wait.
    Empty,
    /// The claim failed.
    Failed,
}

/// What a worker does next.
#[derive(Debug)]
pub enum WorkerStep {
    /// Stop.
    Stop,
    /// Process the job, then ask for the next one.
    Process(JobRecord),
    /// Ask for a job again.
    ClaimAgain,
    /// Wait this long, then ask for a job again.
    BackOff(Duration),
}

/// Whether `step` is what a worker does after a claim with that outcome.
pub open spec fn is_step_after_claim(outcome: ClaimOutcome, step: WorkerStep) -> bool {
    match (outcome, step) {
        (ClaimOutcome::Shutdown, WorkerStep::Stop) => true,
        (ClaimOutcome::Claimed(job), WorkerStep::Process(claimed)) => claimed == job,
        (ClaimOutcome::Empty, WorkerStep::ClaimAgain) => true,
        (ClaimOutcome::Failed, WorkerStep::BackOff(wait)) => time::duration_nanos(wait)
            == 1_000_000_000,
        _ => false,
    }
}

/// What a worker does after a claim.
pub fn after_claim(outcome: ClaimOutcome) -> (step: WorkerStep)
    ensures
        is_step_after_claim(outcome, step),
{
    match outcome {
        ClaimOutcome::Shutdown => WorkerStep::Stop,
        ClaimOutcome::Claimed(job) => WorkerStep::Process(job),
        ClaimOutcome::Empty => WorkerStep::ClaimAgain,
        ClaimOutcome::Failed => WorkerStep::BackOff(Duration::from_secs(1)),
    }
}

/// Whether these are the claims of a whole run of a worker and what it did after
/// each: it went on until it stopped.
pub open spec fn is_worker_run(outcomes: Seq<ClaimOutcome>, steps: Seq<WorkerStep>) -> bool {
    &&& outcomes.len() == steps.len()
    &&& steps.len() > 0
    &&& forall|i: int|
        0 <= i < steps.len() ==> #[trigger] is_step_after_claim(outcomes[i], steps[i])
    &&& steps.last() is Stop
    &&& forall|i: int| 0 <= i < steps.len() - 1 ==> !(#[trigger] steps[i] is Stop)
}

/// The pointers to drop after a sweep of the result store: those of the swept
/// tasks, so that none outlives its result blob. Dropping one that does not
/// exist is harmless. A sweep that failed drops none.
pub fn pointers_to_drop(swept: &Result<Vec<String>, Error>) -> (keys: Vec<Vec<u8>>)
    ensures
        pointer::key_bytes(keys@) == dropped_keys(*swept),
{
    match swept {
        Ok(tasks) => pointer::pointer_keys(tasks),
        Err(_) => {
            let keys: Vec<Vec<u8>> = Vec::new();
            assert(pointer::key_bytes(keys@) =~= Seq::empty());
            keys
        },
    }
}

/// What the reaper learned.
#[derive(Debug)]
pub enum ReaperEvent {
    /// It has been started.
    Started,
    /// The interval has passed.
    Elapsed,
    /// The server is shutting down.
    Shutdown,
    /// The result store was swept of these tasks, or could not be.
    ResultsSwept(Result<Vec<String>, Error>),
    /// Dropping the pointers was tried, each by itself.
    PointersDropped,
    /// Sweeping the audit log was tried.
    AuditSwept,
}

/// What the reaper does next.
#[derive(Debug)]
pub enum ReaperStep {
    /// Wait this long, or until shutdown.
    Wait(Duration),
    /// Sweep the result store.
    SweepResults,
    /// Drop the pointers under these keys, each whether or not another failed.
    DropPointers(Vec<Vec<u8>>),
    /// Sweep the audit log of entries created before this moment.
    SweepAudit(u64),
    /// Stop.
    Stop,
}

/// The keys of the pointers to drop after a sweep.
pub open spec fn dropped_keys(swept: Result<Vec<String>, Error>) -> Seq<Seq<u8>> {
    match swept {
        Ok(tasks) => pointer::keys_of(text::texts(tasks@)),
        Err(_) => Seq::empty(),
    }
}

/// Whether `step` is what the reaper does after `event`, at `now_ms`. Nothing but
/// shutdown ends it: what failed is left for the next sweep.
pub open spec fn is_reaper_step(
    event: ReaperEvent,
    step: ReaperStep,
    config: TaqubaTaskBackendConfig,
    now_ms: u64,
) -> bool {
    match (event, step) {
        (ReaperEvent::Started, ReaperStep::Wait(interval)) => interval == config.reaper_interval,
        (ReaperEvent::Elapsed, ReaperStep::SweepResults) => true,
        (ReaperEvent::Shutdown, ReaperStep::Stop) => true,
        (ReaperEvent::ResultsSwept(swept), ReaperStep::DropPointers(keys)) => pointer::key_bytes(
            keys@,
        ) == dropped_keys(swept),
        (ReaperEvent::PointersDropped, ReaperStep::SweepAudit(cutoff_ms)) => cutoff_ms
            == time::cutoff(now_ms, config.audit_retention),
        (ReaperEvent::AuditSwept, ReaperStep::Wait(interval)) => interval
            == config.reaper_interval,
        _ => false,
    }
}

/// What the reaper does after `event`, at `now_ms`.
pub fn reaper_step(
    event: ReaperEvent,
    config: &TaqubaTaskBackendConfig,
    now_ms: u64,
) -> (step: ReaperStep)
    ensures
        is_reaper_step(event, step, *config, now_ms),
{
    match event {
        ReaperEvent::Started | ReaperEvent::AuditSwept => ReaperStep::Wait(config.reaper_interval),
        ReaperEvent::Elapsed => ReaperStep::SweepResults,
        ReaperEvent::Shutdown => ReaperStep::Stop,
        ReaperEvent::ResultsSwept(swept) => ReaperStep::DropPointers(pointers_to_drop(&swept)),
        ReaperEvent::PointersDropped => ReaperStep::SweepAudit(
            AuditLog::cutoff_ms(now_ms, config.audit_retention),
        ),
    }
}

} // verus!
