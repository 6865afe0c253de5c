//! What holds of the library as a whole.
//!
//! The laws speak of one task and of what the four places that know of tasks
//! hold of it. What the queue does with a job is modelled by [`after_action`].
use crate::audit;
use crate::backend::{TaqubaTaskBackend, TaqubaTaskBackendConfig};
use crate::cancel;
use crate::cancel::CancelStep;
use crate::error::Error;
use crate::in_flight;
use crate::in_flight::InFlightInfoView;
use crate::info;
use crate::info::{InfoStep, TaskReads};
use crate::listing;
use crate::location;
use crate::outcome;
use crate::outcome::ResultStep;
use crate::pointer;
use crate::pointer::TaskPointer;
use crate::protocol;
use crate::protocol::{TaskAnswer, TaskStatus};
use crate::queue;
use crate::queue::{CancelOutcome, JobStatus, JobView};
use crate::result_store;
use crate::result_store::{FinishedStatus, ResultRecordView};
use crate::stamp;
use crate::submit;
use crate::text;
use crate::time;
use crate::worker;
use crate::worker::{ClaimOutcome, JobActionView, ReaperEvent, ReaperStep, WorkerStep};
use rmcp::model::{CallToolRequestParams, CallToolResult};
use std::time::Duration;
use vstd::prelude::*;

verus! {

/// What is held of one task.
pub struct Holdings {
    /// The terminal pointer.
    pub pointer: Option<TaskPointer>,
    /// The in-flight entry.
    pub in_flight: Option<InFlightInfoView>,
    /// The queue job.
    pub job: Option<JobView>,
    /// The result record.
    pub record: Option<ResultRecordView>,
}

/// What reading each of the places gives.
pub open spec fn reads_of(held: Holdings) -> TaskReads {
    TaskReads {
        pointer: Ok(held.pointer),
        in_flight: held.in_flight,
        job: Ok(held.job),
        record: Ok(held.record),
    }
}

/// What a client is told of the task.
pub open spec fn told(
    held: Holdings,
    task_id: Seq<char>,
    ttl: Option<u64>,
    now: Seq<char>,
) -> TaskAnswer {
    info::task_info(task_id, reads_of(held), ttl, now)
}

/// Whether a client is told that the task has the given status.
pub open spec fn is_told(
    held: Holdings,
    task_id: Seq<char>,
    status: TaskStatus,
    ttl: Option<u64>,
    now: Seq<char>,
) -> bool {
    told(held, task_id, ttl, now) matches Ok(task) && task.task_id == task_id && task.status
        == status
}

/// A job with another status.
pub open spec fn with_status(job: Option<JobView>, status: JobStatus) -> Option<JobView> {
    match job {
        Some(job) => Some(JobView { status, ..job }),
        None => None,
    }
}

/// What is held of a task after one action on its job: an ack removes the job
/// and commits the pointer, a dead letter stays in the queue as dead, and a job
/// that is given back waits again, as pending or scheduled.
pub open spec fn after_action(held: Holdings, action: JobActionView, again: JobStatus) -> Holdings {
    match action {
        JobActionView::PutResult(record) => Holdings { record: Some(record), ..held },
        JobActionView::RecordAudit(_) => held,
        JobActionView::Ack(pointer) => Holdings { pointer: Some(pointer), job: None, ..held },
        JobActionView::DeadLetter(_) => Holdings {
            job: with_status(held.job, JobStatus::Dead),
            ..held
        },
        JobActionView::Nack(_) => Holdings { job: with_status(held.job, again), ..held },
    }
}

/// What is held of a task after several actions.
pub open spec fn after_actions(
    held: Holdings,
    actions: Seq<JobActionView>,
    again: JobStatus,
) -> Holdings
    decreases actions.len(),
{
    if actions.len() == 0 {
        held
    } else {
        after_action(after_actions(held, actions.drop_last(), again), actions.last(), again)
    }
}

/// Whether a worker has claimed the task and not settled it yet.
pub open spec fn is_claimed(held: Holdings) -> bool {
    held.pointer is None && held.job is Some && held.job->0.status == JobStatus::Claimed
}

/// Whether a job that was given back waits in the queue.
pub open spec fn is_waiting(again: JobStatus) -> bool {
    again == JobStatus::Pending || again == JobStatus::Scheduled
}

/// The actions of a plan, one by one.
proof fn lemma_after_actions(held: Holdings, actions: Seq<JobActionView>, again: JobStatus)
    ensures
        after_actions(held, actions.take(0), again) == held,
        actions.len() >= 1 ==> after_actions(held, actions.take(1), again) == after_action(
            held,
            actions[0],
            again,
        ),
        actions.len() >= 2 ==> after_actions(held, actions.take(2), again) == after_action(
            after_action(held, actions[0], again),
            actions[1],
            again,
        ),
        actions.len() >= 3 ==> after_actions(held, actions.take(3), again) == after_action(
            after_action(after_action(held, actions[0], again), actions[1], again),
            actions[2],
            again,
        ),
{
    reveal_with_fuel(after_actions, 4);
    assert(actions.take(0) =~= Seq::empty());
    if actions.len() >= 1 {
        assert(actions.take(1).drop_last() =~= actions.take(0));
    }
    if actions.len() >= 2 {
        assert(actions.take(2).drop_last() =~= actions.take(1));
    }
    if actions.len() >= 3 {
        assert(actions.take(3).drop_last() =~= actions.take(2));
    }
}

/// A task whose job is claimed, and could yet run again, is never reported as
/// finished: as long as the last action of its settlement is not done, a client
/// is told that the task is under way, whatever the result store holds.
pub proof fn claimed_task_is_never_reported_finished(
    held: Holdings,
    outcome: Result<CallToolResult, Seq<char>>,
    was_cancelled: bool,
    now_ms: u64,
    retention: Duration,
    done: int,
    again: JobStatus,
    ttl: Option<u64>,
    now: Seq<char>,
)
    requires
        is_claimed(held),
        0 <= done < worker::settlement(held.job->0, outcome, was_cancelled, now_ms, retention).len(),
    ensures
        is_told(
            after_actions(
                held,
                worker::settlement(held.job->0, outcome, was_cancelled, now_ms, retention).take(done),
                again,
            ),
            held.job->0.id,
            TaskStatus::Working,
            ttl,
            now,
        ),
{
    let plan = worker::settlement(held.job->0, outcome, was_cancelled, now_ms, retention);
    lemma_after_actions(held, plan, again);
    assert(done == 0 || done == 1 || done == 2);
}

/// What is held of a task when the index has changed to `tasks`.
pub open spec fn with_index(
    held: Holdings,
    task_id: Seq<char>,
    tasks: Map<Seq<char>, InFlightInfoView>,
) -> Holdings {
    Holdings { in_flight: in_flight::lookup(tasks, task_id), ..held }
}

/// The same holds of a job that is rejected because its payload holds no
/// request, whatever the index held of it: until it is in the dead letters, a
/// client is told that the task is under way, and from then on that it has
/// failed, and why.
pub proof fn rejected_task_is_reported_failed(
    held: Holdings,
    start: worker::JobStart,
    why: Seq<char>,
    before: Map<Seq<char>, InFlightInfoView>,
    after: Map<Seq<char>, InFlightInfoView>,
    now_ms: u64,
    retention: Duration,
    done: int,
    again: JobStatus,
    ttl: Option<u64>,
    now: Seq<char>,
)
    requires
        is_claimed(held),
        worker::is_start(start, held.job->0, Err(why), before, after, now_ms, retention),
        0 <= done <= 3,
    ensures
        ({
            let task_id = held.job->0.id;
            let plan = worker::rejection(held.job->0, why, now_ms, retention);
            let reached = after_actions(with_index(held, task_id, after), plan.take(done), again);
            &&& start matches worker::JobStart::Reject(actions) && worker::plan_of(actions@) == plan
            &&& plan.len() == 3
            &&& done < 3 ==> is_told(reached, task_id, TaskStatus::Working, ttl, now)
            &&& done == 3 ==> told(reached, task_id, ttl, now) == Ok::<
                protocol::TaskView,
                protocol::McpErrorView,
            >(
                protocol::finished_task(
                    task_id,
                    TaskStatus::Failed,
                    Some("payload deserialization failed: "@ + why),
                    now_ms,
                    ttl,
                    now,
                ),
            )
        }),
{
    let plan = worker::rejection(held.job->0, why, now_ms, retention);
    lemma_after_actions(with_index(held, held.job->0.id, after), plan, again);
    assert(done == 0 || done == 1 || done == 2 || done == 3);
}

/// A task whose result is written is no longer in flight, and the entries of all
/// other tasks stay as they are: a rejected job is forgotten as it is rejected,
/// any other as its tool has returned.
pub proof fn written_task_is_not_in_flight(
    start: worker::JobStart,
    job: JobView,
    parsed: Result<CallToolRequestParams, Seq<char>>,
    before: Map<Seq<char>, InFlightInfoView>,
    after: Map<Seq<char>, InFlightInfoView>,
    other: Seq<char>,
    now_ms: u64,
    retention: Duration,
)
    requires
        worker::is_start(start, job, parsed, before, after, now_ms, retention),
        other != job.id,
    ensures
        start is Reject ==> in_flight::lookup(after, job.id) is None,
        start is Run ==> in_flight::is_running(after, job.id),
        in_flight::lookup(after, other) == in_flight::lookup(before, other),
        in_flight::lookup(after.remove(job.id), job.id) is None,
        in_flight::lookup(after.remove(job.id), other) == in_flight::lookup(before, other),
{
}

/// What is held of a task once its tool has returned and its settlement was
/// carried out: the task is no longer in flight.
pub open spec fn settled(
    held: Holdings,
    outcome: Result<CallToolResult, Seq<char>>,
    was_cancelled: bool,
    now_ms: u64,
    retention: Duration,
    again: JobStatus,
) -> Holdings {
    after_actions(
        Holdings { in_flight: None, ..held },
        worker::settlement(held.job->0, outcome, was_cancelled, now_ms, retention),
        again,
    )
}

/// The settlement of a claimed task, as far as it is carried out.
proof fn lemma_settled(
    held: Holdings,
    outcome: Result<CallToolResult, Seq<char>>,
    was_cancelled: bool,
    now_ms: u64,
    retention: Duration,
    again: JobStatus,
)
    ensures
        ({
            let job = held.job->0;
            let plan = worker::settlement(job, outcome, was_cancelled, now_ms, retention);
            let after = settled(held, outcome, was_cancelled, now_ms, retention, again);
            match outcome {
                Ok(result) => after == Holdings {
                    pointer: Some(
                        worker::terminal_pointer(FinishedStatus::Completed, now_ms, retention),
                    ),
                    job: None,
                    record: Some(
                        worker::finished_record(
                            job.id,
                            job.tool(),
                            FinishedStatus::Completed,
                            Some(result),
                            None,
                            now_ms,
                            retention,
                        ),
                    ),
                    in_flight: None,
                    ..held
                },
                Err(message) => if was_cancelled {
                    after == Holdings {
                        pointer: Some(
                            worker::terminal_pointer(FinishedStatus::Cancelled, now_ms, retention),
                        ),
                        job: None,
                        record: Some(
                            worker::finished_record(
                                job.id,
                                job.tool(),
                                FinishedStatus::Cancelled,
                                None,
                                None,
                                now_ms,
                                retention,
                            ),
                        ),
                        in_flight: None,
                    ..held
                    }
                } else if worker::is_last_attempt(job) {
                    after == Holdings {
                        job: with_status(held.job, JobStatus::Dead),
                        record: Some(
                            worker::finished_record(
                                job.id,
                                job.tool(),
                                FinishedStatus::Failed,
                                None,
                                Some(message),
                                now_ms,
                                retention,
                            ),
                        ),
                        in_flight: None,
                    ..held
                    }
                } else {
                    after == Holdings {
                        in_flight: None,
                        job: with_status(held.job, again),
                        ..held
                    }
                },
            }
        }),
{
    let plan = worker::settlement(held.job->0, outcome, was_cancelled, now_ms, retention);
    lemma_after_actions(Holdings { in_flight: None, ..held }, plan, again);
    assert(plan.take(plan.len() as int) =~= plan);
}

/// A task whose tool returned a result is reported as completed, even where its
/// cancellation was requested: cancellation is cooperative. Neither a stale
/// in-flight entry that appears late nor an earlier record changes that.
pub proof fn returned_task_is_reported_completed(
    held: Holdings,
    result: CallToolResult,
    was_cancelled: bool,
    now_ms: u64,
    retention: Duration,
    again: JobStatus,
    stale: Option<InFlightInfoView>,
    ttl: Option<u64>,
    now: Seq<char>,
)
    requires
        is_claimed(held),
    ensures
        told(
            Holdings {
                in_flight: stale,
                ..settled(held, Ok(result), was_cancelled, now_ms, retention, again)
            },
            held.job->0.id,
            ttl,
            now,
        ) == Ok::<protocol::TaskView, protocol::McpErrorView>(
            protocol::finished_task(
                held.job->0.id,
                TaskStatus::Completed,
                None,
                now_ms,
                ttl,
                now,
            ),
        ),
{
    lemma_settled(held, Ok(result), was_cancelled, now_ms, retention, again);
}

/// A task whose tool returned an error after its cancellation was requested is
/// reported as cancelled, and its job is gone: it is not retried.
pub proof fn short_circuited_task_is_reported_cancelled(
    held: Holdings,
    message: Seq<char>,
    now_ms: u64,
    retention: Duration,
    again: JobStatus,
    ttl: Option<u64>,
    now: Seq<char>,
)
    requires
        is_claimed(held),
    ensures
        told(
            settled(held, Err(message), true, now_ms, retention, again),
            held.job->0.id,
            ttl,
            now,
        ) == Ok::<protocol::TaskView, protocol::McpErrorView>(
            protocol::finished_task(
                held.job->0.id,
                TaskStatus::Cancelled,
                None,
                now_ms,
                ttl,
                now,
            ),
        ),
        settled(held, Err(message), true, now_ms, retention, again).job is None,
{
    lemma_settled(held, Err(message), true, now_ms, retention, again);
}

/// A task that failed on its last attempt is reported as failed, with the
/// message of the error; one that has attempts left is reported as queued.
pub proof fn failed_task_is_reported_failed_or_queued(
    held: Holdings,
    message: Seq<char>,
    now_ms: u64,
    retention: Duration,
    again: JobStatus,
    ttl: Option<u64>,
    now: Seq<char>,
)
    requires
        is_claimed(held),
        is_waiting(again),
    ensures
        told(
            settled(held, Err(message), false, now_ms, retention, again),
            held.job->0.id,
            ttl,
            now,
        ) == Ok::<protocol::TaskView, protocol::McpErrorView>(
            if worker::is_last_attempt(held.job->0) {
                protocol::finished_task(
                    held.job->0.id,
                    TaskStatus::Failed,
                    Some(message),
                    now_ms,
                    ttl,
                    now,
                )
            } else {
                protocol::working_task(
                    held.job->0.id,
                    "queued"@,
                    held.job->0.enqueued_at,
                    ttl,
                    now,
                )
            },
        ),
{
    lemma_settled(held, Err(message), false, now_ms, retention, again);
}

/// The result that a client gets of a finished task is the worker's outcome:
/// the value of what the tool returned, or that the task failed and why, or that
/// it was cancelled. An earlier record, such as that of a cancellation that came
/// too late, is replaced. The answer is there before the job is settled, so a
/// client that is woken by the settlement finds it.
pub proof fn result_is_the_workers_outcome(
    held: Holdings,
    outcome: Result<CallToolResult, Seq<char>>,
    was_cancelled: bool,
    now_ms: u64,
    retention: Duration,
    again: JobStatus,
    time_is_up: bool,
    fallback: CallToolResult,
)
    requires
        is_claimed(held),
        outcome is Ok || was_cancelled || worker::is_last_attempt(held.job->0),
    ensures
        ({
            let job = held.job->0;
            let plan = worker::settlement(job, outcome, was_cancelled, now_ms, retention);
            let answer = match outcome {
                Ok(result) => outcome::completed_payload(outcome::told_value(result)),
                Err(message) => if was_cancelled {
                    Err(protocol::invalid_request("task was cancelled: "@, job.id))
                } else {
                    Err(protocol::internal_error("task failed: "@, message))
                },
            };
            forall|done: int|
                #![trigger plan.take(done)]
                1 <= done <= plan.len() ==> outcome::result_look(
                    job.id,
                    Ok(after_actions(held, plan.take(done), again).record),
                    held.in_flight is Some,
                    Ok(after_actions(held, plan.take(done), again).job),
                    time_is_up,
                    fallback,
                ) == Some(answer)
        }),
{
    let job = held.job->0;
    let plan = worker::settlement(job, outcome, was_cancelled, now_ms, retention);
    lemma_after_actions(held, plan, again);
    assert(plan.len() == 3);
    assert forall|done: int| #![trigger plan.take(done)] 1 <= done <= plan.len() implies
        after_actions(held, plan.take(done), again).record == after_action(
        held,
        plan[0],
        again,
    ).record by {
        assert(done == 1 || done == 2 || done == 3);
    }
}

/// The record and the pointer of a task that ended on the ack path agree on how
/// and when it ended and on when it expires; pointers exist only for completed
/// and cancelled tasks.
pub proof fn pointer_agrees_with_record(
    held: Holdings,
    outcome: Result<CallToolResult, Seq<char>>,
    was_cancelled: bool,
    now_ms: u64,
    retention: Duration,
    again: JobStatus,
)
    requires
        is_claimed(held),
    ensures
        settled(held, outcome, was_cancelled, now_ms, retention, again).pointer matches Some(
            pointer,
        ) ==> settled(held, outcome, was_cancelled, now_ms, retention, again).record matches Some(
            record,
        ) && pointer.status == record.status && pointer.completed_at_ms == record.completed_at_ms
            && pointer.expires_at_ms == record.expires_at_ms && pointer.status
            != FinishedStatus::Failed,
        settled(held, outcome, was_cancelled, now_ms, retention, again).pointer is Some
            <==> outcome is Ok || was_cancelled,
{
    lemma_settled(held, outcome, was_cancelled, now_ms, retention, again);
}

/// The event that the outcome of an attempt is recorded as.
pub open spec fn outcome_event(
    outcome: Result<CallToolResult, Seq<char>>,
    was_cancelled: bool,
) -> audit::AuditEvent {
    match outcome {
        Ok(_) => audit::AuditEvent::Completed,
        Err(_) => if was_cancelled {
            audit::AuditEvent::Cancelled
        } else {
            audit::AuditEvent::Failed
        },
    }
}

/// Every attempt at a task leaves one entry of its outcome in the audit log,
/// before the job is settled.
pub proof fn every_attempt_is_audited_once(
    job: JobView,
    outcome: Result<CallToolResult, Seq<char>>,
    was_cancelled: bool,
    now_ms: u64,
    retention: Duration,
)
    ensures
        ({
            let plan = worker::settlement(job, outcome, was_cancelled, now_ms, retention);
            let at = plan.len() - 2;
            &&& plan.len() >= 2
            &&& plan[at] matches JobActionView::RecordAudit(entry)
            &&& entry.task_id == job.id
            &&& entry.tool == job.tool()
            &&& entry.at_ms == now_ms
            &&& entry.event == outcome_event(outcome, was_cancelled)
            &&& forall|i: int|
                0 <= i < plan.len() && #[trigger] plan[i] is RecordAudit ==> i == at
        }),
{
}

/// The terminal pointer is what a client is told, whatever else is held.
pub proof fn pointer_is_authoritative(
    held: Holdings,
    task_id: Seq<char>,
    ttl: Option<u64>,
    now: Seq<char>,
)
    requires
        held.pointer is Some,
    ensures
        told(held, task_id, ttl, now) == told(
            Holdings { in_flight: None, job: None, record: None, ..held },
            task_id,
            ttl,
            now,
        ),
        is_told(
            held,
            task_id,
            result_store::reported_status(held.pointer->0.status),
            ttl,
            now,
        ),
{
}

/// A job is given back to the queue only for a failure that was not cancelled
/// and only while attempts are left: the attempt that follows is still one of
/// those that the policy allows.
pub proof fn retries_stay_within_the_policy(
    job: JobView,
    outcome: Result<CallToolResult, Seq<char>>,
    was_cancelled: bool,
    now_ms: u64,
    retention: Duration,
    i: int,
)
    requires
        0 <= i < worker::settlement(job, outcome, was_cancelled, now_ms, retention).len(),
        worker::settlement(job, outcome, was_cancelled, now_ms, retention)[i] is Nack,
    ensures
        outcome is Err,
        !was_cancelled,
        job.attempts + 1 <= job.max_attempts,
{
}

/// How often a job is attempted that fails every time, its attempt number
/// `attempt` running now.
pub open spec fn attempts_in_all(job: JobView, attempt: nat) -> nat
    decreases job.max_attempts - attempt,
{
    if attempt > u32::MAX || worker::is_last_attempt(
        JobView { attempts: attempt as u32, ..job },
    ) {
        attempt
    } else {
        attempts_in_all(job, attempt + 1)
    }
}

/// A job that fails every time is attempted as often as the policy says before it
/// goes to the dead letters, and a policy of one attempt never retries.
pub proof fn failing_job_uses_all_its_attempts(job: JobView, attempt: nat)
    requires
        1 <= attempt <= job.max_attempts,
    ensures
        attempts_in_all(job, attempt) == job.max_attempts,
    decreases job.max_attempts - attempt,
{
    if attempt < job.max_attempts {
        failing_job_uses_all_its_attempts(job, attempt + 1);
    }
}

/// Cancelling a task that waits in the queue records it as cancelled before its
/// job is removed: a client that asks for the result as soon as the job is gone
/// is answered that the task was cancelled, and so is told of its status.
pub proof fn waiting_task_is_cancelled_at_once(
    step: CancelStep,
    held: Holdings,
    before: Map<Seq<char>, InFlightInfoView>,
    after: Map<Seq<char>, InFlightInfoView>,
    now_ms: u64,
    retention: Duration,
    record_path: Seq<char>,
    time_is_up: bool,
    fallback: CallToolResult,
    ttl: Option<u64>,
    now: Seq<char>,
)
    requires
        held.pointer is None,
        held.job is Some,
        is_waiting(held.job->0.status),
        cancel::is_step_after_peek(
            step,
            held.job->0.id,
            Ok(held.job),
            before,
            after,
            now_ms,
            retention,
            record_path,
        ),
    ensures
        step is WriteAndRemove,
        !after.dom().contains(held.job->0.id),
        ({
            let task_id = held.job->0.id;
            let writes = worker::plan_of(step->writes@);
            let written = after_actions(
                Holdings { in_flight: None, ..held },
                writes,
                held.job->0.status,
            );
            let removed = Holdings { job: None, ..written };
            &&& written.job == held.job
            &&& outcome::result_look(
                task_id,
                Ok(written.record),
                false,
                Ok(written.job),
                time_is_up,
                fallback,
            ) == Some(
                Err::<serde_json::Value, protocol::McpErrorView>(
                    protocol::invalid_request("task was cancelled: "@, task_id),
                ),
            )
            &&& outcome::result_look(
                task_id,
                Ok(removed.record),
                false,
                Ok(removed.job),
                time_is_up,
                fallback,
            ) == Some(
                Err::<serde_json::Value, protocol::McpErrorView>(
                    protocol::invalid_request("task was cancelled: "@, task_id),
                ),
            )
            &&& told(removed, task_id, ttl, now) == Ok::<
                protocol::TaskView,
                protocol::McpErrorView,
            >(
                protocol::finished_task(
                    task_id,
                    TaskStatus::Cancelled,
                    None,
                    now_ms,
                    ttl,
                    now,
                ),
            )
        }),
{
    let writes = worker::plan_of(step->writes@);
    let start = Holdings { in_flight: None, ..held };
    lemma_after_actions(start, writes, held.job->0.status);
    assert(writes.take(2) =~= writes);
}

/// Cancelling a task that a worker runs writes no record and removes nothing:
/// its worker is asked to stop, and what the worker does remains the outcome.
pub proof fn running_task_is_only_asked_to_stop(
    step: CancelStep,
    next: CancelStep,
    job: JobView,
    before: Map<Seq<char>, InFlightInfoView>,
    after: Map<Seq<char>, InFlightInfoView>,
    outcome: Result<CancelOutcome, Seq<char>>,
    now_ms: u64,
    retention: Duration,
    record_path: Seq<char>,
    ttl: Option<u64>,
    now: Seq<char>,
)
    requires
        job.status == JobStatus::Claimed,
        cancel::is_step_after_peek(
            step,
            job.id,
            Ok(Some(job)),
            before,
            after,
            now_ms,
            retention,
            record_path,
        ),
        step is RequestStop ==> cancel::is_step_after_request(
            next,
            job.id,
            step->tool@,
            outcome,
            now_ms,
            record_path,
            ttl,
            now,
        ),
    ensures
        step is RequestStop,
        after == before,
        next !is WriteAndRemove,
        next is RecordAndReply <==> outcome == Ok::<CancelOutcome, Seq<char>>(
            CancelOutcome::Requested,
        ) || outcome == Ok::<CancelOutcome, Seq<char>>(CancelOutcome::Removed),
        next matches CancelStep::RecordAndReply(entry, task) ==> task@.status
            == TaskStatus::Cancelled && entry@.event == audit::AuditEvent::Cancelled,
{
}

/// A task that has finished, and so has a record and no live job, cannot be
/// cancelled: the request is refused as invalid, naming the status that the task
/// is reported with, and nothing changes.
pub proof fn finished_task_cannot_be_cancelled(
    step: CancelStep,
    task_id: Seq<char>,
    job: Option<JobView>,
    record: ResultRecordView,
    before: Map<Seq<char>, InFlightInfoView>,
    after: Map<Seq<char>, InFlightInfoView>,
    now_ms: u64,
    retention: Duration,
    record_path: Seq<char>,
)
    requires
        job matches Some(job) ==> job.status == JobStatus::Done || job.status == JobStatus::Dead,
        cancel::is_step_after_peek(
            step,
            task_id,
            Ok(job),
            before,
            after,
            now_ms,
            retention,
            record_path,
        ),
    ensures
        step matches CancelStep::ReadRecord(key) && location::path_text(key) == record_path,
        after == before,
        cancel::refusal(task_id, Ok(Some(record))).kind == protocol::McpErrorKind::InvalidRequest,
        cancel::refusal(task_id, Ok(Some(record))).message
            == "task is already in terminal state: "@ + result_store::reported_status(
            record.status,
        ).label(),
{
}

/// A task that no place knows of is not found, whatever is asked about it.
pub proof fn unknown_task_is_not_found(
    step: CancelStep,
    task_id: Seq<char>,
    before: Map<Seq<char>, InFlightInfoView>,
    after: Map<Seq<char>, InFlightInfoView>,
    now_ms: u64,
    retention: Duration,
    record_path: Seq<char>,
    time_is_up: bool,
    fallback: CallToolResult,
    ttl: Option<u64>,
    now: Seq<char>,
)
    requires
        cancel::is_step_after_peek(
            step,
            task_id,
            Ok(None),
            before,
            after,
            now_ms,
            retention,
            record_path,
        ),
    ensures
        told(
            Holdings { pointer: None, in_flight: None, job: None, record: None },
            task_id,
            ttl,
            now,
        ) == Err::<protocol::TaskView, protocol::McpErrorView>(protocol::not_found(task_id)),
        outcome::result_look(task_id, Ok(None), false, Ok(None), time_is_up, fallback) == Some(
            Err::<serde_json::Value, protocol::McpErrorView>(protocol::not_found(task_id)),
        ),
        step is ReadRecord,
        cancel::refusal(task_id, Ok(None)) == protocol::not_found(task_id),
        after == before,
{
}

/// The steps of a status lookup lead to the answer that all the places together
/// give, whenever each of them was asked.
pub proof fn lookup_steps_give_the_answer(
    task_id: Seq<char>,
    reads: TaskReads,
    record_path: Seq<char>,
    ttl: Option<u64>,
    first: InfoStep,
    second: InfoStep,
    last: TaskAnswer,
    first_now: Seq<char>,
    second_now: Seq<char>,
    last_now: Seq<char>,
)
    requires
        info::is_step_after_pointer(
            first,
            task_id,
            info::snapshot_from_pointer(task_id, reads.pointer, reads.in_flight, ttl, first_now),
        ),
        first is ReadJob ==> info::is_step_after_job(
            second,
            info::snapshot_from_job(task_id, reads.job, ttl, second_now),
            record_path,
        ),
        second is ReadRecord ==> last == info::answer_after_record(
            task_id,
            info::snapshot_from_record(task_id, reads.record, ttl, last_now),
        ),
    ensures
        match first {
            InfoStep::Reply(reply) => protocol::answer_of(reply) == info::task_info(
                task_id,
                reads,
                ttl,
                first_now,
            ),
            InfoStep::ReadJob(_) => match second {
                InfoStep::Reply(reply) => protocol::answer_of(reply) == info::task_info(
                    task_id,
                    reads,
                    ttl,
                    second_now,
                ),
                InfoStep::ReadRecord(_) => last == info::task_info(task_id, reads, ttl, last_now),
                _ => false,
            },
            _ => false,
        },
{
    assert(info::snapshot_from_pointer(task_id, reads.pointer, reads.in_flight, ttl, first_now)
        is None <==> info::snapshot_from_pointer(
        task_id,
        reads.pointer,
        reads.in_flight,
        ttl,
        second_now,
    ) is None);
}

/// A job that comes out of the queue as it was enqueued calls the tool that the
/// client asked for, with the bytes of the request as they were encoded.
pub proof fn job_calls_the_requested_tool(tool: Seq<char>, payload: Seq<u8>, job: JobView)
    requires
        job.queue == submit::job_for(tool, payload).queue,
        job.payload == submit::job_for(tool, payload).payload,
        job.headers == submit::job_for(tool, payload).headers,
    ensures
        job.tool() == tool,
        job.tool_header() == Some(tool),
        cancel::requested_tool(job) == tool,
        worker::payload_request(job.payload) == worker::payload_request(payload),
{
}

/// A worker that runs such a job calls the tool that the client asked for.
pub proof fn worker_calls_the_requested_tool(
    tool: Seq<char>,
    job: JobView,
    start: worker::JobStart,
    before: Map<Seq<char>, InFlightInfoView>,
    after: Map<Seq<char>, InFlightInfoView>,
    now_ms: u64,
    retention: Duration,
)
    requires
        submit::payload_calls(job.payload, tool),
        worker::is_start(
            start,
            job,
            worker::payload_request(job.payload),
            before,
            after,
            now_ms,
            retention,
        ),
    ensures
        start matches worker::JobStart::Run { started, request } ==> protocol::requested_tool(
            request,
        ) == tool,
{
}

/// A record is kept for as long as tasks are said to live: it expires that long
/// after the task has ended, and not a millisecond earlier.
pub proof fn record_lives_as_long_as_reported(
    task_id: Seq<char>,
    tool: Seq<char>,
    status: FinishedStatus,
    result: Option<CallToolResult>,
    error: Option<Seq<char>>,
    ended_ms: u64,
    retention: Duration,
    now_ms: u64,
)
    requires
        time::ttl(retention) is Some,
        ended_ms + time::ttl(retention)->0 <= u64::MAX,
    ensures
        result_store::is_expired(
            worker::finished_record(task_id, tool, status, result, error, ended_ms, retention),
            now_ms,
        ) <==> ended_ms + time::ttl(retention)->0 <= now_ms,
{
}

/// The reaper sweeps what has expired and nothing else.
pub proof fn reaper_sweeps_the_expired(
    records: Seq<ResultRecordView>,
    now_ms: u64,
    task_id: Seq<char>,
)
    ensures
        result_store::expired_tasks(records, now_ms).contains(task_id) <==> exists|i: int|
            0 <= i < records.len() && (#[trigger] records[i]).task_id == task_id
                && result_store::is_expired(records[i], now_ms),
    decreases records.len(),
{
    result_store::lemma_expired_tasks(records, now_ms);
    let swept = result_store::expired_tasks(records, now_ms);
    if records.len() > 0 {
        let shorter = records.drop_last();
        let before = result_store::expired_tasks(shorter, now_ms);
        reaper_sweeps_the_expired(shorter, now_ms, task_id);
        if before.contains(task_id) {
            let i = choose|i: int|
                0 <= i < shorter.len() && (#[trigger] shorter[i]).task_id == task_id
                    && result_store::is_expired(shorter[i], now_ms);
            assert(records[i] == shorter[i]);
            let k = choose|k: int| 0 <= k < before.len() && before[k] == task_id;
            assert(swept[k] == task_id);
        }
        if swept.contains(task_id) && !before.contains(task_id) {
            let k = choose|k: int| 0 <= k < swept.len() && swept[k] == task_id;
            if k < before.len() {
                assert(before[k] == task_id);
            }
            assert(records[records.len() - 1].task_id == task_id);
        }
        if exists|i: int|
            0 <= i < records.len() && (#[trigger] records[i]).task_id == task_id
                && result_store::is_expired(records[i], now_ms) {
            let i = choose|i: int|
                0 <= i < records.len() && (#[trigger] records[i]).task_id == task_id
                    && result_store::is_expired(records[i], now_ms);
            if i < shorter.len() {
                assert(shorter[i] == records[i]);
            } else {
                assert(swept[swept.len() - 1] == task_id);
            }
        }
    }
}

/// A swept task loses its pointer, and no other task does: no pointer outlives
/// the record of its task.
pub proof fn pointers_go_with_their_records(tasks: Seq<Seq<char>>, task_id: Seq<char>)
    ensures
        pointer::keys_of(tasks).contains(pointer::key_of(task_id)) <==> tasks.contains(task_id),
{
    let keys = pointer::keys_of(tasks);
    if tasks.contains(task_id) {
        let i = choose|i: int| 0 <= i < tasks.len() && tasks[i] == task_id;
        assert(keys[i] == pointer::key_of(task_id));
    }
    if keys.contains(pointer::key_of(task_id)) {
        let i = choose|i: int| 0 <= i < keys.len() && keys[i] == pointer::key_of(task_id);
        pointer::pointer_keys_are_distinct(tasks[i], task_id);
    }
}

/// A plain id makes a file name that stands in its path as it is.
proof fn lemma_record_name(task_id: Seq<char>)
    requires
        location::is_plain(task_id),
    ensures
        location::segment(task_id + ".json"@) == task_id + ".json"@,
{
    reveal_strlit(".json");
    let name = task_id + ".json"@;
    assert forall|i: int| 0 <= i < name.len() implies location::is_plain_char(
        #[trigger] name[i],
    ) by {
        if i < task_id.len() {
            assert(location::is_plain_char(task_id[i]));
        }
    }
    assert(name.len() >= 5);
    location::lemma_plain_segment(name);
}

/// The names of the directories stand in a path as they are.
proof fn lemma_directory_names()
    ensures
        location::segment("results"@) == "results"@,
        location::segment("audit"@) == "audit"@,
{
    reveal_strlit("results");
    reveal_strlit("audit");
    assert("results"@.len() == 7);
    assert("audit"@.len() == 5);
    location::lemma_plain_segment("results"@);
    location::lemma_plain_segment("audit"@);
}

/// Under a prefix that names a path, the record of a task lies at
/// `<prefix>/results/<task_id>.json`, with the id encoded where it is not plain.
pub proof fn record_lies_under_results(prefix: Seq<char>, task_id: Seq<char>)
    requires
        prefix.len() > 0,
    ensures
        result_store::record_path(prefix, task_id) == prefix + "/results/"@ + location::segment(
            task_id + ".json"@,
        ),
        location::is_plain(task_id) ==> result_store::record_path(prefix, task_id) == prefix
            + "/results/"@ + task_id + ".json"@,
{
    lemma_directory_names();
    reveal_strlit("/results/");
    reveal_strlit("results");
    assert(result_store::record_path(prefix, task_id) =~= prefix + "/results/"@ + location::segment(
        task_id + ".json"@,
    ));
    if location::is_plain(task_id) {
        lemma_record_name(task_id);
        assert(result_store::record_path(prefix, task_id) =~= prefix + "/results/"@ + task_id
            + ".json"@);
    }
}

/// Under a prefix that names a path, an audit entry lies at
/// `<prefix>/audit/<ulid>.json`.
pub proof fn entry_lies_under_audit(prefix: Seq<char>, ulid: u128)
    requires
        prefix.len() > 0,
    ensures
        audit::entry_path(prefix, ulid) == prefix + "/audit/"@ + stamp::ulid_text(ulid)
            + ".json"@,
{
    lemma_directory_names();
    audit::lemma_entry_name(ulid);
    reveal_strlit("/audit/");
    reveal_strlit("audit");
    assert(audit::entry_path(prefix, ulid) =~= prefix + "/audit/"@ + stamp::ulid_text(ulid)
        + ".json"@);
}

/// A backend keeps everything under the prefix that it was built with, whether
/// or not that ends in `/`: the queue at `<prefix>/queue`, the records at
/// `<prefix>/results/<task_id>.json`, the entries at `<prefix>/audit/<ulid>.json`.
/// The prefix may itself be a path of several segments.
pub proof fn state_lies_under_the_prefix<S, C>(
    backend: TaqubaTaskBackend<S, C>,
    prefix: Seq<char>,
    task_id: Seq<char>,
    ulid: u128,
)
    requires
        backend.is_under(prefix),
        location::is_plain_path(text::without_trailing_slashes(prefix)),
        location::is_plain(task_id),
    ensures
        ({
            let root = text::without_trailing_slashes(prefix);
            &&& backend.queue_path@ == root + "/queue"@
            &&& backend.record_path(task_id) == root + "/results/"@ + task_id + ".json"@
            &&& audit::entry_path(location::path_text(backend.audit_log.prefix), ulid) == root
                + "/audit/"@ + stamp::ulid_text(ulid) + ".json"@
        }),
{
    let root = text::without_trailing_slashes(prefix);
    location::plain_path_is_kept(root);
    location::trailing_slashes_do_not_matter(prefix);
    record_lies_under_results(root, task_id);
    entry_lies_under_audit(root, ulid);
}

/// The records of two tasks lie apart, so neither overwrites the other.
pub proof fn records_lie_apart(prefix: Seq<char>, left: Seq<char>, right: Seq<char>)
    requires
        result_store::record_path(prefix, left) == result_store::record_path(prefix, right),
    ensures
        left == right,
{
    reveal_strlit(".json");
    assert((left + ".json"@).len() >= 5);
    assert((right + ".json"@).len() >= 5);
    location::lemma_child_is_injective(
        result_store::results_path(prefix),
        left + ".json"@,
        right + ".json"@,
    );
    assert(left =~= (left + ".json"@).take(left.len() as int));
    assert((left + ".json"@).len() == (right + ".json"@).len());
    assert(right =~= (right + ".json"@).take(right.len() as int));
}

/// The steps of a request for a result lead to the answer that one look at all
/// the places gives; where that look gives none, they lead to another look after
/// a pause that does not go beyond the time of the request.
pub proof fn result_steps_give_the_answer(
    task_id: Seq<char>,
    record: Result<Option<ResultRecordView>, Seq<char>>,
    in_flight: bool,
    job: Result<Option<JobView>, Seq<char>>,
    elapsed: Duration,
    max_wait: Duration,
    poll_interval: Duration,
    fallback: CallToolResult,
    first: ResultStep,
    second: ResultStep,
    third: ResultStep,
)
    requires
        outcome::is_step_from_record(first, task_id, record, in_flight, fallback),
        first is ReadJob ==> outcome::is_step_from_job(second, task_id, job),
        first is CheckDeadline || (first is ReadJob && second is CheckDeadline)
            ==> outcome::is_step_at_deadline(third, task_id, elapsed, max_wait, poll_interval),
    ensures
        ({
            let step = match first {
                ResultStep::Reply(_) => first,
                ResultStep::ReadJob(_) if second is Reply => second,
                _ => third,
            };
            let time_is_up = outcome::time_is_up(elapsed, max_wait);
            match outcome::result_look(task_id, record, in_flight, job, time_is_up, fallback) {
                Some(answer) => outcome::replies(step, answer),
                None => {
                    &&& step matches ResultStep::Sleep(pause)
                    &&& time::duration_nanos(elapsed) + time::duration_nanos(pause)
                        <= time::duration_nanos(max_wait)
                    &&& time::duration_nanos(pause) <= time::duration_nanos(poll_interval)
                },
            }
        }),
{
}

/// When a request for a result that was under way for `elapsed` is answered that
/// there is none yet, where no record appears and looking takes no time: after
/// pause upon pause, once its time is up.
pub open spec fn answered_after(elapsed: nat, max_wait: nat, poll_interval: nat) -> nat
    decreases max_wait - elapsed,
{
    if elapsed >= max_wait || poll_interval == 0 {
        elapsed
    } else {
        answered_after(
            elapsed + outcome::pause_nanos(elapsed, max_wait, poll_interval),
            max_wait,
            poll_interval,
        )
    }
}

/// A request for a result of a task that stays under way is answered exactly when
/// its time is up: the time bounds the whole request, all its looks included.
pub proof fn request_is_answered_in_time(elapsed: nat, max_wait: nat, poll_interval: nat)
    requires
        elapsed <= max_wait,
        poll_interval > 0,
    ensures
        answered_after(elapsed, max_wait, poll_interval) == max_wait,
    decreases max_wait - elapsed,
{
    if elapsed < max_wait {
        request_is_answered_in_time(
            elapsed + outcome::pause_nanos(elapsed, max_wait, poll_interval),
            max_wait,
            poll_interval,
        );
    }
}

/// A task whose job is live is reported as under way, by the in-flight index or
/// without it, as after a restart.
pub proof fn live_task_is_reported_under_way(
    held: Holdings,
    task_id: Seq<char>,
    ttl: Option<u64>,
    now: Seq<char>,
)
    requires
        held.pointer is None,
        held.job is Some,
        info::live_job_message(held.job->0.status) is Some,
    ensures
        is_told(held, task_id, TaskStatus::Working, ttl, now),
        is_told(
            Holdings { in_flight: None, ..held },
            task_id,
            TaskStatus::Working,
            ttl,
            now,
        ),
{
}

/// A task is reported as queued from the moment it was accepted, and as running
/// only where a worker has started it.
pub proof fn accepted_task_is_reported_queued(
    submission: Result<submit::Submission, protocol::McpError>,
    tool: Seq<char>,
    task_id: Seq<char>,
    before: Map<Seq<char>, InFlightInfoView>,
    after: Map<Seq<char>, InFlightInfoView>,
    now_ms: u64,
    ttl: Option<u64>,
    accepted: Seq<char>,
    held: Holdings,
    now: Seq<char>,
)
    requires
        submit::is_submission(
            submission,
            tool,
            Ok(task_id),
            before,
            after,
            now_ms,
            ttl,
            accepted,
        ),
        held.pointer is None,
        held.in_flight == in_flight::lookup(after, task_id),
    ensures
        submission matches Ok(submission) && submission.task@.task_id == task_id
            && submission.task@.status == TaskStatus::Working,
        told(held, task_id, ttl, now) == Ok::<protocol::TaskView, protocol::McpErrorView>(
            protocol::working_task(
                task_id,
                if in_flight::is_running(before, task_id) {
                    "running"@
                } else {
                    "queued"@
                },
                now_ms,
                ttl,
                now,
            ),
        ),
{
}

/// No audit entry lies where the record of a task does.
pub proof fn entries_and_records_lie_apart(prefix: Seq<char>, task_id: Seq<char>, ulid: u128)
    ensures
        result_store::record_path(prefix, task_id) != audit::entry_path(prefix, ulid),
{
    lemma_directory_names();
    reveal_strlit("results");
    reveal_strlit("audit");
    let at = if prefix.len() == 0 {
        0
    } else {
        prefix.len() + 1
    };
    assert(result_store::record_path(prefix, task_id)[at as int] == 'r');
    assert(audit::entry_path(prefix, ulid)[at as int] == 'a');
}

/// The list of tasks holds every task in flight and every task with a record:
/// the former as under way, the latter as it ended.
pub proof fn known_tasks_are_listed(
    tasks: in_flight::InFlight,
    records: Seq<ResultRecordView>,
    task_id: Seq<char>,
    i: int,
    ttl: Option<u64>,
    now: Seq<char>,
)
    requires
        tasks.wf(),
    ensures
        ({
            let list = listing::running_tasks(tasks.listed(), ttl, now) + listing::finished_tasks(
                records,
                ttl,
                now,
            );
            &&& tasks@.dom().contains(task_id) ==> exists|k: int|
                0 <= k < list.len() && (#[trigger] list[k]).task_id == task_id && list[k].status
                    == TaskStatus::Working
            &&& 0 <= i < records.len() ==> exists|k: int|
                0 <= k < list.len() && (#[trigger] list[k]).task_id == records[i].task_id
                    && list[k].status == result_store::reported_status(records[i].status)
            &&& list.len() == tasks.listed().len() + records.len()
        }),
{
    let running = listing::running_tasks(tasks.listed(), ttl, now);
    let list = running + listing::finished_tasks(records, ttl, now);
    in_flight::in_flight_lists_its_tasks(tasks, 0, task_id);
    if tasks@.dom().contains(task_id) {
        let k = choose|k: int|
            0 <= k < tasks.listed().len() && (#[trigger] tasks.listed()[k]).0 == task_id;
        assert(list[k] == running[k]);
    }
    if 0 <= i < records.len() {
        assert(list[running.len() + i] == listing::finished_tasks(records, ttl, now)[i]);
    }
}

/// A worker stops at the first shutdown that it sees and at nothing else: an
/// empty or failed claim does not end it. Every job that it claimed is processed,
/// each once and before it stops, and after it has stopped none is claimed. One
/// that sees the shutdown at once claims nothing.
pub proof fn worker_runs_until_shutdown(
    outcomes: Seq<ClaimOutcome>,
    steps: Seq<WorkerStep>,
    i: int,
)
    requires
        worker::is_worker_run(outcomes, steps),
        0 <= i < outcomes.len(),
    ensures
        outcomes[i] is Shutdown <==> i == outcomes.len() - 1,
        outcomes[i] matches ClaimOutcome::Claimed(job) ==> steps[i] == WorkerStep::Process(job)
            && i < outcomes.len() - 1,
        steps[i] matches WorkerStep::Process(job) ==> outcomes[i] == ClaimOutcome::Claimed(job),
        outcomes[0] is Shutdown ==> outcomes.len() == 1,
{
    assert(worker::is_step_after_claim(outcomes[i], steps[i]));
    assert(worker::is_step_after_claim(outcomes[0], steps[0]));
    if i < steps.len() - 1 {
        assert(!(steps[i] is Stop));
    }
    if steps.len() > 1 {
        assert(!(steps[0] is Stop));
    }
}

/// The reaper stops at shutdown and at nothing else. A sweep goes all its way: the
/// pointers that it drops are those of the tasks that were swept and no other, and
/// the audit log is swept even where the result store could not be.
pub proof fn sweep_goes_all_its_way(
    config: TaqubaTaskBackendConfig,
    swept: Result<Vec<String>, Error>,
    event: ReaperEvent,
    step: ReaperStep,
    first: ReaperStep,
    second: ReaperStep,
    third: ReaperStep,
    fourth: ReaperStep,
    now_ms: u64,
    task_id: Seq<char>,
)
    requires
        worker::is_reaper_step(event, step, config, now_ms),
        worker::is_reaper_step(ReaperEvent::Elapsed, first, config, now_ms),
        worker::is_reaper_step(ReaperEvent::ResultsSwept(swept), second, config, now_ms),
        worker::is_reaper_step(ReaperEvent::PointersDropped, third, config, now_ms),
        worker::is_reaper_step(ReaperEvent::AuditSwept, fourth, config, now_ms),
    ensures
        step is Stop <==> event is Shutdown,
        first is SweepResults,
        second matches ReaperStep::DropPointers(keys) && (pointer::key_bytes(keys@).contains(
            pointer::key_of(task_id),
        ) <==> swept is Ok && text::texts(swept->Ok_0@).contains(task_id)),
        third == ReaperStep::SweepAudit(time::cutoff(now_ms, config.audit_retention)),
        fourth == ReaperStep::Wait(config.reaper_interval),
{
    if swept is Ok {
        pointers_go_with_their_records(text::texts(swept->Ok_0@), task_id);
    }
}

/// Of the tasks that were to be deleted, those are swept whose deletion went
/// through.
proof fn lemma_deleted_tasks(tasks: Seq<Seq<char>>, deleted: Seq<bool>, task_id: Seq<char>)
    ensures
        result_store::deleted_tasks(tasks, deleted).contains(task_id) <==> exists|i: int|
            0 <= i < tasks.len() && #[trigger] tasks[i] == task_id && deleted[i],
    decreases tasks.len(),
{
    let swept = result_store::deleted_tasks(tasks, deleted);
    if tasks.len() > 0 {
        let shorter = tasks.drop_last();
        let before = result_store::deleted_tasks(shorter, deleted);
        let last = tasks.len() - 1;
        lemma_deleted_tasks(shorter, deleted, task_id);
        if before.contains(task_id) {
            let i = choose|i: int|
                0 <= i < shorter.len() && #[trigger] shorter[i] == task_id && deleted[i];
            assert(tasks[i] == task_id && deleted[i]);
            let k = choose|k: int| 0 <= k < before.len() && before[k] == task_id;
            assert(swept[k] == task_id);
        }
        if swept.contains(task_id) && !before.contains(task_id) {
            let k = choose|k: int| 0 <= k < swept.len() && swept[k] == task_id;
            if k < before.len() {
                assert(before[k] == task_id);
            }
            assert(tasks[last] == task_id && deleted[last]);
        }
        if exists|i: int| 0 <= i < tasks.len() && #[trigger] tasks[i] == task_id && deleted[i] {
            let i = choose|i: int|
                0 <= i < tasks.len() && #[trigger] tasks[i] == task_id && deleted[i];
            if i < last {
                assert(shorter[i] == task_id && deleted[i]);
            } else {
                assert(swept[swept.len() - 1] == task_id);
            }
        }
    }
}

/// In one sweep at `now_ms` a pointer is dropped exactly where the record of its
/// task had expired and its deletion went through.
pub proof fn sweep_drops_what_it_deleted(
    records: Seq<ResultRecordView>,
    now_ms: u64,
    deleted: Seq<bool>,
    task_id: Seq<char>,
)
    ensures
        ({
            let expired = result_store::expired_tasks(records, now_ms);
            let swept = result_store::deleted_tasks(expired, deleted);
            &&& pointer::keys_of(swept).contains(pointer::key_of(task_id)) <==> exists|i: int|
                0 <= i < expired.len() && #[trigger] expired[i] == task_id && deleted[i]
            &&& pointer::keys_of(swept).contains(pointer::key_of(task_id)) ==> exists|j: int|
                0 <= j < records.len() && (#[trigger] records[j]).task_id == task_id
                    && result_store::is_expired(records[j], now_ms)
        }),
{
    let expired = result_store::expired_tasks(records, now_ms);
    lemma_deleted_tasks(expired, deleted, task_id);
    pointers_go_with_their_records(result_store::deleted_tasks(expired, deleted), task_id);
    reaper_sweeps_the_expired(records, now_ms, task_id);
}

/// Whether every time that an action writes is `now_ms`, or follows from it and
/// the retention.
pub open spec fn is_timed(action: JobActionView, now_ms: u64, retention: Duration) -> bool {
    match action {
        JobActionView::PutResult(record) => record.completed_at_ms == now_ms
            && record.expires_at_ms == time::expiry(now_ms, retention),
        JobActionView::RecordAudit(entry) => entry.at_ms == now_ms,
        JobActionView::Ack(pointer) => pointer.completed_at_ms == now_ms && pointer.expires_at_ms
            == time::expiry(now_ms, retention),
        JobActionView::DeadLetter(_) | JobActionView::Nack(_) => true,
    }
}

/// There is one clock: every time in a record, a pointer, an audit entry and an
/// in-flight entry is the `now_ms` that was read from it. So is, to its 48 bits,
/// the timestamp of the ULID in the location of an audit entry, which is the one
/// that the reaper reads and holds against the same clock.
pub proof fn every_time_is_the_clocks(
    job: JobView,
    parsed: Result<CallToolRequestParams, Seq<char>>,
    start: worker::JobStart,
    submission: Result<submit::Submission, protocol::McpError>,
    enqueued: Result<Seq<char>, Seq<char>>,
    outcome: Result<CallToolResult, Seq<char>>,
    was_cancelled: bool,
    why: Seq<char>,
    requested: CancelStep,
    cancelled: Result<CancelOutcome, Seq<char>>,
    record_path: Seq<char>,
    before: Map<Seq<char>, InFlightInfoView>,
    started: Map<Seq<char>, InFlightInfoView>,
    submitted: Map<Seq<char>, InFlightInfoView>,
    prefix: Seq<char>,
    ulid: u128,
    now_ms: u64,
    retention: Duration,
    ttl: Option<u64>,
    now: Seq<char>,
    i: int,
)
    requires
        worker::is_start(start, job, parsed, before, started, now_ms, retention),
        submit::is_submission(
            submission,
            job.tool(),
            enqueued,
            before,
            submitted,
            now_ms,
            ttl,
            now,
        ),
        cancel::is_step_after_request(
            requested,
            job.id,
            job.tool(),
            cancelled,
            now_ms,
            record_path,
            ttl,
            now,
        ),
        stamp::ulid_millis(ulid) == now_ms % 0x1_0000_0000_0000,
    ensures
        ({
            let plan = worker::settlement(job, outcome, was_cancelled, now_ms, retention);
            let rejected = worker::rejection(job, why, now_ms, retention);
            let removed = worker::cancellation_writes(job.id, job.tool(), now_ms, retention);
            &&& 0 <= i < plan.len() ==> is_timed(plan[i], now_ms, retention)
            &&& 0 <= i < rejected.len() ==> is_timed(rejected[i], now_ms, retention)
            &&& 0 <= i < removed.len() ==> is_timed(removed[i], now_ms, retention)
        }),
        start matches worker::JobStart::Run { started: entry, request } ==> entry@.at_ms == now_ms
            && started[job.id].started_at_ms == now_ms,
        enqueued is Ok ==> submission is Ok && submission->Ok_0.submitted@.at_ms == now_ms
            && submitted[enqueued->Ok_0].started_at_ms == now_ms,
        requested matches CancelStep::RecordAndReply(entry, _) ==> entry@.at_ms == now_ms,
        audit::entry_ulid(audit::entry_path(prefix, ulid)) == Some(ulid),
{
    audit::entry_location_reads_back(prefix, ulid);
}

} // verus!
