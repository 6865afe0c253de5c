//! What becomes of a claimed job, field by field: what is called, what is
//! written, what the queue is told, and what the pool and the reaper do.
use crate::audit::AuditEvent;
use crate::backend::TaqubaTaskBackendConfig;
use crate::error::Error;
use crate::in_flight::InFlightInfoView;
use crate::pointer;
use crate::protocol;
use crate::queue::JobRecord;
use crate::result_store::FinishedStatus;
use crate::text;
use crate::time;
use crate::worker;
use crate::worker::{
    ClaimOutcome, JobAction, JobStart, ReaperEvent, ReaperStep, RetryPolicy, ToolInfo, WorkerStep,
};
use rmcp::model::{CallToolRequestParams, CallToolResult};
use std::time::Duration;
use vstd::prelude::*;

verus! {

/// Whatever a payload holds, and however long it is, the request read from it is
/// the one that the decoder reads; where the decoder reads none, what is told is
/// what the decoder's error says.
pub proof fn payload_is_read_as_decoded(payload: Seq<u8>)
    ensures
        protocol::parsed_request(payload) matches Ok(request) ==> worker::payload_request(payload)
            == Ok::<CallToolRequestParams, Seq<char>>(request),
        protocol::parsed_request(payload) matches Err(error) ==> worker::payload_request(payload)
            == Err::<CallToolRequestParams, Seq<char>>(protocol::json_error_message(error)),
{
}

/// A job whose request was read runs with exactly that request. That it has
/// started is entered under its id and tool at that moment, and its task is
/// running from then on. No other task is touched.
pub proof fn read_request_is_run(
    start: JobStart,
    job: JobRecord,
    read: CallToolRequestParams,
    before: Map<Seq<char>, InFlightInfoView>,
    after: Map<Seq<char>, InFlightInfoView>,
    now_ms: u64,
    retention: Duration,
    other: Seq<char>,
)
    requires
        worker::is_start(start, job@, Ok(read), before, after, now_ms, retention),
    ensures
        start matches JobStart::Run { started, request } && request == read && started.event
            == AuditEvent::Started && started.task_id@ == job.id@ && started.tool@ == job@.tool()
            && started.at_ms == now_ms && started.error is None,
        after.dom().contains(job.id@),
        after[job.id@].tool == job@.tool(),
        after[job.id@].started_at_ms == now_ms,
        after[job.id@].running,
        other != job.id@ ==> (after.dom().contains(other) <==> before.dom().contains(other)),
        other != job.id@ && before.dom().contains(other) ==> after[other] == before[other],
{
}

/// A job whose request could not be read is recorded as failed, under its id and
/// tool, for the reason that was given, and goes to the dead letters. It is the
/// only task that is no longer in flight.
pub proof fn unread_request_is_rejected(
    start: JobStart,
    job: JobRecord,
    why: Seq<char>,
    before: Map<Seq<char>, InFlightInfoView>,
    after: Map<Seq<char>, InFlightInfoView>,
    now_ms: u64,
    retention: Duration,
    other: Seq<char>,
)
    requires
        worker::is_start(start, job@, Err(why), before, after, now_ms, retention),
    ensures
        start matches JobStart::Reject(actions) && {
            &&& actions.len() == 3
            &&& actions[0] matches JobAction::PutResult(record)
            &&& record.task_id@ == job.id@
            &&& record.tool@ == job@.tool()
            &&& record.status == FinishedStatus::Failed
            &&& record.result is None
            &&& record.error matches Some(message)
            &&& message@ == "payload deserialization failed: "@ + why
            &&& record.completed_at_ms == now_ms
            &&& record.expires_at_ms == time::expiry(now_ms, retention)
            &&& actions[1] matches JobAction::RecordAudit(entry)
            &&& entry.event == AuditEvent::Failed
            &&& entry.task_id@ == job.id@
            &&& entry.tool@ == job@.tool()
            &&& entry.at_ms == now_ms
            &&& entry.error matches Some(told)
            &&& told@ == message@
            &&& actions[2] matches JobAction::DeadLetter(reason)
            &&& reason@ == "payload deserialization failed"@
        },
        !after.dom().contains(job.id@),
        other != job.id@ ==> (after.dom().contains(other) <==> before.dom().contains(other)),
        other != job.id@ && before.dom().contains(other) ==> after[other] == before[other],
{
    match start {
        JobStart::Reject(actions) => {
            let plan = worker::plan_of(actions@);
            assert(plan.len() == 3);
            assert(plan[0] == actions[0]@ && plan[1] == actions[1]@ && plan[2] == actions[2]@);
        },
        JobStart::Run { .. } => {},
    }
}

/// A claimed job is run with what the decoder reads from its payload, whatever
/// its length, and is rejected only where the decoder reads nothing, for the
/// reason that the decoder gives.
pub proof fn job_starts_as_its_payload_decodes(
    start: JobStart,
    job: JobRecord,
    before: Map<Seq<char>, InFlightInfoView>,
    after: Map<Seq<char>, InFlightInfoView>,
    now_ms: u64,
    retention: Duration,
)
    requires
        worker::is_start(
            start,
            job@,
            worker::payload_request(job@.payload),
            before,
            after,
            now_ms,
            retention,
        ),
    ensures
        start is Run <==> protocol::parsed_request(job.payload@) is Ok,
        protocol::parsed_request(job.payload@) matches Ok(read) ==> (start matches JobStart::Run {
            request,
            ..
        } && request == read),
        protocol::parsed_request(job.payload@) matches Err(error) ==> {
            &&& start matches JobStart::Reject(actions)
            &&& actions.len() == 3
            &&& actions[0] matches JobAction::PutResult(record)
            &&& record.error matches Some(message)
            &&& message@ == "payload deserialization failed: "@ + protocol::json_error_message(
                error,
            )
        },
{
    match protocol::parsed_request(job.payload@) {
        Ok(read) => {
            read_request_is_run(start, job, read, before, after, now_ms, retention, job.id@);
        },
        Err(error) => {
            let why = protocol::json_error_message(error);
            unread_request_is_rejected(start, job, why, before, after, now_ms, retention, job.id@);
        },
    }
}

/// A task that completed is recorded with its result and no error, then entered
/// in the log, both under its id and tool and with one time.
pub proof fn completion_is_written(
    actions: Seq<JobAction>,
    task_id: Seq<char>,
    tool: Seq<char>,
    result: CallToolResult,
    now_ms: u64,
    retention: Duration,
)
    requires
        worker::plan_of(actions) == worker::completion_writes(
            task_id,
            tool,
            result,
            now_ms,
            retention,
        ),
    ensures
        actions.len() == 2,
        actions[0] matches JobAction::PutResult(record) && {
            &&& record.task_id@ == task_id
            &&& record.tool@ == tool
            &&& record.status == FinishedStatus::Completed
            &&& record.result == Some(result)
            &&& record.error is None
            &&& record.completed_at_ms == now_ms
            &&& record.expires_at_ms == time::expiry(now_ms, retention)
        },
        actions[1] matches JobAction::RecordAudit(entry) && {
            &&& entry.event == AuditEvent::Completed
            &&& entry.task_id@ == task_id
            &&& entry.tool@ == tool
            &&& entry.at_ms == now_ms
            &&& entry.error is None
        },
{
    let plan = worker::plan_of(actions);
    assert(plan.len() == 2);
    assert(plan[0] == actions[0]@ && plan[1] == actions[1]@);
}

/// A task that was cancelled is recorded without a result or an error, then
/// entered in the log, both under its id and tool and with one time.
pub proof fn cancellation_is_written(
    actions: Seq<JobAction>,
    task_id: Seq<char>,
    tool: Seq<char>,
    now_ms: u64,
    retention: Duration,
)
    requires
        worker::plan_of(actions) == worker::cancellation_writes(task_id, tool, now_ms, retention),
    ensures
        actions.len() == 2,
        actions[0] matches JobAction::PutResult(record) && {
            &&& record.task_id@ == task_id
            &&& record.tool@ == tool
            &&& record.status == FinishedStatus::Cancelled
            &&& record.result is None
            &&& record.error is None
            &&& record.completed_at_ms == now_ms
            &&& record.expires_at_ms == time::expiry(now_ms, retention)
        },
        actions[1] matches JobAction::RecordAudit(entry) && {
            &&& entry.event == AuditEvent::Cancelled
            &&& entry.task_id@ == task_id
            &&& entry.tool@ == tool
            &&& entry.at_ms == now_ms
            &&& entry.error is None
        },
{
    let plan = worker::plan_of(actions);
    assert(plan.len() == 2);
    assert(plan[0] == actions[0]@ && plan[1] == actions[1]@);
}

/// A task that failed is recorded without a result and with its error, then
/// entered in the log with the same error, both under its id and tool and with
/// one time.
pub proof fn failure_is_written(
    actions: Seq<JobAction>,
    task_id: Seq<char>,
    tool: Seq<char>,
    message: Seq<char>,
    now_ms: u64,
    retention: Duration,
)
    requires
        worker::plan_of(actions) == worker::failure_writes(
            task_id,
            tool,
            message,
            now_ms,
            retention,
        ),
    ensures
        actions.len() == 2,
        actions[0] matches JobAction::PutResult(record) && {
            &&& record.task_id@ == task_id
            &&& record.tool@ == tool
            &&& record.status == FinishedStatus::Failed
            &&& record.result is None
            &&& record.error matches Some(told)
            &&& told@ == message
            &&& record.completed_at_ms == now_ms
            &&& record.expires_at_ms == time::expiry(now_ms, retention)
        },
        actions[1] matches JobAction::RecordAudit(entry) && {
            &&& entry.event == AuditEvent::Failed
            &&& entry.task_id@ == task_id
            &&& entry.tool@ == tool
            &&& entry.at_ms == now_ms
            &&& entry.error matches Some(told)
            &&& told@ == message
        },
{
    let plan = worker::plan_of(actions);
    assert(plan.len() == 2);
    assert(plan[0] == actions[0]@ && plan[1] == actions[1]@);
}

/// A tool that returned a result completes its task, whether or not cancellation
/// was asked for and whichever attempt it was: the result is recorded under the
/// job's id and tool, the log says that it completed, and the job is
/// acknowledged with a pointer that says so too, all with one time.
pub proof fn result_completes_the_job(
    actions: Seq<JobAction>,
    job: JobRecord,
    result: CallToolResult,
    was_cancelled: bool,
    now_ms: u64,
    retention: Duration,
)
    requires
        worker::plan_of(actions) == worker::settlement(
            job@,
            Ok(result),
            was_cancelled,
            now_ms,
            retention,
        ),
    ensures
        actions.len() == 3,
        actions[0] matches JobAction::PutResult(record) && {
            &&& record.task_id@ == job.id@
            &&& record.tool@ == job@.tool()
            &&& record.status == FinishedStatus::Completed
            &&& record.result == Some(result)
            &&& record.error is None
            &&& record.completed_at_ms == now_ms
            &&& record.expires_at_ms == time::expiry(now_ms, retention)
        },
        actions[1] matches JobAction::RecordAudit(entry) && {
            &&& entry.event == AuditEvent::Completed
            &&& entry.task_id@ == job.id@
            &&& entry.tool@ == job@.tool()
            &&& entry.at_ms == now_ms
            &&& entry.error is None
        },
        actions[2] matches JobAction::Ack(pointer) && {
            &&& pointer.status == FinishedStatus::Completed
            &&& pointer.completed_at_ms == now_ms
            &&& pointer.expires_at_ms == time::expiry(now_ms, retention)
        },
{
    let plan = worker::plan_of(actions);
    assert(plan.len() == 3);
    assert(plan[0] == actions[0]@ && plan[1] == actions[1]@ && plan[2] == actions[2]@);
}

/// A tool that failed after cancellation was asked for cancels its task,
/// whatever its error says and whichever attempt it was: the job is
/// acknowledged, and never given back.
pub proof fn error_after_cancellation_cancels_the_job(
    actions: Seq<JobAction>,
    job: JobRecord,
    message: Seq<char>,
    now_ms: u64,
    retention: Duration,
)
    requires
        worker::plan_of(actions) == worker::settlement(
            job@,
            Err(message),
            true,
            now_ms,
            retention,
        ),
    ensures
        actions.len() == 3,
        actions[0] matches JobAction::PutResult(record) && {
            &&& record.task_id@ == job.id@
            &&& record.tool@ == job@.tool()
            &&& record.status == FinishedStatus::Cancelled
            &&& record.result is None
            &&& record.error is None
            &&& record.completed_at_ms == now_ms
            &&& record.expires_at_ms == time::expiry(now_ms, retention)
        },
        actions[1] matches JobAction::RecordAudit(entry) && {
            &&& entry.event == AuditEvent::Cancelled
            &&& entry.task_id@ == job.id@
            &&& entry.tool@ == job@.tool()
            &&& entry.at_ms == now_ms
            &&& entry.error is None
        },
        actions[2] matches JobAction::Ack(pointer) && {
            &&& pointer.status == FinishedStatus::Cancelled
            &&& pointer.completed_at_ms == now_ms
            &&& pointer.expires_at_ms == time::expiry(now_ms, retention)
        },
{
    let plan = worker::plan_of(actions);
    assert(plan.len() == 3);
    assert(plan[0] == actions[0]@ && plan[1] == actions[1]@ && plan[2] == actions[2]@);
}

/// A tool that failed, with no cancellation asked for, has its error entered in
/// the log and handed to the queue, as it was given. Where the attempts are used
/// up the task is recorded as failed with that error and goes to the dead
/// letters; where one is left nothing is recorded and the job is given back.
pub proof fn error_is_retried_while_attempts_are_left(
    actions: Seq<JobAction>,
    job: JobRecord,
    message: Seq<char>,
    now_ms: u64,
    retention: Duration,
)
    requires
        worker::plan_of(actions) == worker::settlement(
            job@,
            Err(message),
            false,
            now_ms,
            retention,
        ),
    ensures
        job.attempts < job.max_attempts ==> {
            &&& actions.len() == 2
            &&& actions[0] matches JobAction::RecordAudit(entry)
            &&& entry.event == AuditEvent::Failed
            &&& entry.task_id@ == job.id@
            &&& entry.tool@ == job@.tool()
            &&& entry.at_ms == now_ms
            &&& entry.error matches Some(told)
            &&& told@ == message
            &&& actions[1] matches JobAction::Nack(reason)
            &&& reason@ == message
        },
        job.attempts >= job.max_attempts ==> {
            &&& actions.len() == 3
            &&& actions[0] matches JobAction::PutResult(record)
            &&& record.task_id@ == job.id@
            &&& record.tool@ == job@.tool()
            &&& record.status == FinishedStatus::Failed
            &&& record.result is None
            &&& record.error matches Some(told)
            &&& told@ == message
            &&& record.completed_at_ms == now_ms
            &&& record.expires_at_ms == time::expiry(now_ms, retention)
            &&& actions[1] matches JobAction::RecordAudit(entry)
            &&& entry.event == AuditEvent::Failed
            &&& entry.task_id@ == job.id@
            &&& entry.tool@ == job@.tool()
            &&& entry.at_ms == now_ms
            &&& entry.error matches Some(entered)
            &&& entered@ == message
            &&& actions[2] matches JobAction::DeadLetter(reason)
            &&& reason@ == message
        },
{
    let plan = worker::plan_of(actions);
    if job.attempts < job.max_attempts {
        assert(plan.len() == 2);
        assert(plan[0] == actions[0]@ && plan[1] == actions[1]@);
    } else {
        assert(plan.len() == 3);
        assert(plan[0] == actions[0]@ && plan[1] == actions[1]@ && plan[2] == actions[2]@);
    }
}

/// The usual policy makes five attempts, half a second to a minute apart.
pub proof fn usual_policy_makes_five_attempts(policy: RetryPolicy)
    requires
        worker::is_exponential(policy),
    ensures
        policy.max_attempts == 5,
        time::duration_nanos(policy.initial_backoff) == 500_000_000,
        time::duration_nanos(policy.max_backoff) == 60_000_000_000,
{
}

/// Offering one more tool adds its name at the end of those that are worked for
/// where it may be invoked as a task, and nothing where it must not be. With no
/// tool offered there is none to work for.
pub proof fn offered_tool_is_worked_for(tools: Seq<ToolInfo>, tool: ToolInfo)
    ensures
        worker::task_tools(Seq::empty()).len() == 0,
        tool.task_support is Forbidden ==> worker::task_tools(tools.push(tool))
            == worker::task_tools(tools),
        !(tool.task_support is Forbidden) ==> worker::task_tools(tools.push(tool))
            == worker::task_tools(tools).push(tool.name@),
{
    let keep = |offered: ToolInfo| worker::takes_tasks(offered);
    let name = |offered: ToolInfo| offered.name@;
    reveal(Seq::filter);
    assert(tools.push(tool).drop_last() =~= tools);
    let kept = tools.filter(keep);
    assert(kept.push(tool).map_values(name) =~= kept.map_values(name).push(tool.name@));
}

/// The pool has the same number of workers for every tool, numbered from zero,
/// tool after tool.
pub proof fn every_tool_has_its_workers(
    tools: Seq<Seq<char>>,
    per_tool: nat,
    tool: int,
    worker: int,
)
    requires
        per_tool <= usize::MAX,
    ensures
        worker::pool_slots(tools, per_tool).len() == tools.len() * per_tool,
        0 <= tool < tools.len() && 0 <= worker < per_tool ==> {
            &&& 0 <= tool * per_tool + worker < worker::pool_slots(tools, per_tool).len()
            &&& worker::pool_slots(tools, per_tool)[tool * per_tool + worker].0 == tools[tool]
            &&& worker::pool_slots(tools, per_tool)[tool * per_tool + worker].1 == worker
        },
    decreases tools.len(),
{
    if tools.len() > 0 {
        every_tool_has_its_workers(tools.drop_last(), per_tool, tool, worker);
        let fewer = (tools.len() - 1) as nat;
        assert(tools.len() * per_tool == fewer * per_tool + per_tool) by (nonlinear_arith)
            requires
                tools.len() == fewer + 1,
        ;
        if 0 <= tool < tools.len() && 0 <= worker < per_tool {
            assert(0 <= tool * per_tool) by (nonlinear_arith)
                requires
                    0 <= tool,
                    0 <= per_tool,
            ;
            if tool < fewer {
                assert(tool * per_tool + per_tool <= fewer * per_tool) by (nonlinear_arith)
                    requires
                        tool + 1 <= fewer,
                        0 <= per_tool,
                ;
            }
        }
    } else {
        assert(tools.len() * per_tool == 0) by (nonlinear_arith)
            requires
                tools.len() == 0,
        ;
    }
}

/// The pool is idle exactly where there is no tool to work for, or where it
/// would have no worker and the reaper is not to run.
pub proof fn pool_is_idle_where_nothing_would_run(
    tools: Seq<Seq<char>>,
    per_tool: usize,
    reaper: bool,
)
    ensures
        worker::is_idle(tools.len(), per_tool, reaper) <==> tools.len() == 0 || (
        worker::pool_slots(tools, per_tool as nat).len() == 0 && !reaper),
{
    every_tool_has_its_workers(tools, per_tool as nat, 0, 0);
    assert(tools.len() * (per_tool as nat) == 0 <==> tools.len() == 0 || per_tool == 0)
        by (nonlinear_arith);
}

/// A worker stops exactly at shutdown, processes every job that it claims, and
/// asks again otherwise, a second later where asking failed.
pub proof fn worker_acts_on_every_claim(outcome: ClaimOutcome, step: WorkerStep)
    requires
        worker::is_step_after_claim(outcome, step),
    ensures
        outcome is Shutdown <==> step is Stop,
        outcome matches ClaimOutcome::Claimed(job) ==> (step matches WorkerStep::Process(processed)
            && processed == job),
        outcome is Empty ==> step is ClaimAgain,
        outcome is Failed ==> (step matches WorkerStep::BackOff(wait) && time::duration_nanos(wait)
            == 1_000_000_000),
{
}

/// The reaper waits its interval at first and after each round, stops at shutdown
/// and only there, and goes from the results over their pointers to the log. An
/// entry is swept from the log exactly where it is older than the log's
/// retention.
pub proof fn reaper_goes_its_round(
    event: ReaperEvent,
    step: ReaperStep,
    config: TaqubaTaskBackendConfig,
    now_ms: u64,
    created_ms: u64,
)
    requires
        worker::is_reaper_step(event, step, config, now_ms),
    ensures
        event is Started || event is AuditSwept ==> (step matches ReaperStep::Wait(interval)
            && interval == config.reaper_interval),
        event is Elapsed ==> step is SweepResults,
        event is Shutdown <==> step is Stop,
        event is ResultsSwept ==> step is DropPointers,
        event is PointersDropped ==> (step matches ReaperStep::SweepAudit(cutoff_ms) && (created_ms
            < cutoff_ms <==> created_ms + time::duration_nanos(config.audit_retention) / 1_000_000
            % 0x1_0000_0000_0000_0000 < now_ms)),
{
}

/// After a sweep of the results the pointer of every swept task is dropped, in
/// order, and no other. After one that failed none is.
pub proof fn swept_tasks_lose_their_pointers(
    swept: Result<Vec<String>, Error>,
    step: ReaperStep,
    config: TaqubaTaskBackendConfig,
    now_ms: u64,
    i: int,
)
    requires
        worker::is_reaper_step(ReaperEvent::ResultsSwept(swept), step, config, now_ms),
    ensures
        step matches ReaperStep::DropPointers(keys) && {
            &&& swept is Err ==> keys.len() == 0
            &&& swept matches Ok(tasks) ==> keys.len() == tasks.len() && (0 <= i < tasks.len()
                ==> keys[i]@ == vstd::utf8::encode_utf8("mcp:task:"@ + tasks[i]@))
        },
{
    match step {
        ReaperStep::DropPointers(keys) => {
            let bytes = pointer::key_bytes(keys@);
            assert(bytes.len() == keys.len());
            match swept {
                Ok(tasks) => {
                    assert(worker::dropped_keys(swept).len() == tasks.len());
                    if 0 <= i < tasks.len() {
                        assert(bytes[i] == keys[i]@);
                        assert(text::texts(tasks@)[i] == tasks[i]@);
                        assert(worker::dropped_keys(swept)[i] == pointer::key_of(tasks[i]@));
                    }
                },
                Err(_) => {},
            }
        },
        _ => {},
    }
}

} // verus!
