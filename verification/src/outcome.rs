//! Requests for the result of a task.
//!
//! A request first waits for the queue job to reach a terminal state. The
//! result record is then read as the authoritative outcome. It is normally
//! there by then, but it can lag: a cancellation writes it around the removal
//! of the job, and a job can be dead-lettered while its worker is still running
//! the tool. So the record is looked for again and again while the task is
//! under way, until the time for the request is up.
use crate::backend::TaqubaTaskBackend;
use crate::error::Error;
use crate::in_flight::InFlight;
use crate::location;
use crate::protocol;
use crate::protocol::{McpError, McpErrorView};
use crate::queue;
use crate::queue::{JobRecord, JobView};
use crate::result_store;
use crate::result_store::{FinishedStatus, ResultRecord, ResultRecordView};
use crate::time;
use rmcp::model::CallToolResult;
use serde_json::Value;
use std::time::Duration;
use taquba::object_store::path::Path;
use vstd::prelude::*;

verus! {

/// What an answer to a request for a result holds.
pub type PayloadAnswer = Result<Value, McpErrorView>;

/// The contents of an answer.
pub open spec fn payload_of(reply: Result<Value, McpError>) -> PayloadAnswer {
    match reply {
        Ok(value) => Ok(value),
        Err(error) => Err(error@),
    }
}

/// The JSON value of a tool's result, or what the error says that it has none.
pub open spec fn told_value(result: CallToolResult) -> Result<
    Value,
    Seq<char>,
> {
    match protocol::result_value(result) {
        Ok(value) => Ok(value),
        Err(error) => Err(protocol::json_error_message(error)),
    }
}

/// The answer for a completed task: the value of its result.
pub open spec fn completed_payload(encoded: Result<Value, Seq<char>>) -> PayloadAnswer {
    match encoded {
        Ok(value) => Ok(value),
        Err(why) => Err(protocol::internal_error("failed to serialize tool result: "@, why)),
    }
}

/// Whether `fallback` can stand for the result of a task: where the record of a
/// completed one holds none, it is what `CallToolResult::default` gives.
pub open spec fn is_fallback(record: Option<ResultRecordView>, fallback: CallToolResult) -> bool {
    record matches Some(record) && record.status == FinishedStatus::Completed && record.result
        is None ==> call_ensures(<CallToolResult as Default>::default, (), fallback)
}

/// What a read gave of a record, a failed read giving none.
pub open spec fn read_record(read: Result<Option<ResultRecordView>, Seq<char>>) -> Option<
    ResultRecordView,
> {
    match read {
        Ok(found) => found,
        Err(_) => None,
    }
}

/// The answer that a record gives: the tool's result for a completed task, an
/// error for a failed or a cancelled one. A completed task whose record holds no
/// result has `fallback` for one.
pub open spec fn record_payload(
    task_id: Seq<char>,
    record: ResultRecordView,
    fallback: CallToolResult,
) -> PayloadAnswer {
    match record.status {
        FinishedStatus::Completed => completed_payload(
            told_value(
                match record.result {
                    Some(result) => result,
                    None => fallback,
                },
            ),
        ),
        FinishedStatus::Failed => Err(
            protocol::internal_error(
                "task failed: "@,
                match record.error {
                    Some(message) => message,
                    None => "(no error message)"@,
                },
            ),
        ),
        FinishedStatus::Cancelled => Err(
            protocol::invalid_request("task was cancelled: "@, task_id),
        ),
    }
}

/// Whether a request that has been under way for `elapsed` has used up its time.
pub open spec fn time_is_up(elapsed: Duration, max_wait: Duration) -> bool {
    time::duration_nanos(elapsed) >= time::duration_nanos(max_wait)
}

/// How long to pause before the next look for a result: the poll interval, or
/// what is left of the time where that is less.
pub open spec fn pause_nanos(elapsed: nat, max_wait: nat, poll_interval: nat) -> nat {
    if poll_interval <= max_wait - elapsed {
        poll_interval
    } else {
        (max_wait - elapsed) as nat
    }
}

/// One look for the result of a task: the answer, or nothing where it is to be
/// looked for again. A record answers. Without one, a task that neither the
/// index nor the queue knows is not found; one that they know has no result
/// yet, which is the answer once the time is up.
pub open spec fn result_look(
    task_id: Seq<char>,
    record: Result<Option<ResultRecordView>, Seq<char>>,
    in_flight: bool,
    job: Result<Option<JobView>, Seq<char>>,
    time_is_up: bool,
    fallback: CallToolResult,
) -> Option<PayloadAnswer> {
    match record {
        Err(why) => Some(Err(protocol::internal_error("result store read failed: "@, why))),
        Ok(Some(record)) => Some(record_payload(task_id, record, fallback)),
        Ok(None) => if !in_flight && job is Err {
            Some(Err(protocol::internal_error("queue lookup failed: "@, job->Err_0)))
        } else if !in_flight && job == Ok::<Option<JobView>, Seq<char>>(None) {
            Some(Err(protocol::not_found(task_id)))
        } else if time_is_up {
            Some(Err(protocol::invalid_request("task result not yet available: "@, task_id)))
        } else {
            None
        },
    }
}

/// The next step towards the result of a task.
pub enum ResultStep {
    /// Wait for the job to end.
    Wait {
        /// The job.
        task_id: String,
        /// How long to wait at most.
        max_wait: Duration,
    },
    /// Read the result record at this location.
    ReadRecord(Path),
    /// Look the job with this id up in the queue.
    ReadJob(String),
    /// Check how long the request has been under way.
    CheckDeadline,
    /// Pause this long, then read the result record again.
    Sleep(Duration),
    /// Answer the request.
    Reply(Result<Value, McpError>),
}

/// Whether a step answers the request with `answer`.
pub open spec fn replies(step: ResultStep, answer: PayloadAnswer) -> bool {
    step matches ResultStep::Reply(reply) && payload_of(reply) == answer
}

/// Whether a step is the right one, given what was read of the record.
pub open spec fn is_step_from_record(
    step: ResultStep,
    task_id: Seq<char>,
    record: Result<Option<ResultRecordView>, Seq<char>>,
    in_flight: bool,
    fallback: CallToolResult,
) -> bool {
    match record {
        Err(why) => replies(
            step,
            Err(protocol::internal_error("result store read failed: "@, why)),
        ),
        Ok(Some(record)) => replies(step, record_payload(task_id, record, fallback)),
        Ok(None) => if in_flight {
            step == ResultStep::CheckDeadline
        } else {
            step matches ResultStep::ReadJob(id) && id@ == task_id
        },
    }
}

/// Whether a step is the right one, given what was read of the job.
pub open spec fn is_step_from_job(
    step: ResultStep,
    task_id: Seq<char>,
    job: Result<Option<JobView>, Seq<char>>,
) -> bool {
    match job {
        Err(why) => replies(step, Err(protocol::internal_error("queue lookup failed: "@, why))),
        Ok(Some(_)) => step == ResultStep::CheckDeadline,
        Ok(None) => replies(step, Err(protocol::not_found(task_id))),
    }
}

/// Whether a step is the right one for a task that is under way.
pub open spec fn is_step_at_deadline(
    step: ResultStep,
    task_id: Seq<char>,
    elapsed: Duration,
    max_wait: Duration,
    poll_interval: Duration,
) -> bool {
    if time_is_up(elapsed, max_wait) {
        replies(
            step,
            Err(protocol::invalid_request("task result not yet available: "@, task_id)),
        )
    } else {
        step matches ResultStep::Sleep(pause) && time::duration_nanos(pause) == pause_nanos(
            time::duration_nanos(elapsed),
            time::duration_nanos(max_wait),
            time::duration_nanos(poll_interval),
        )
    }
}

impl<S, C> TaqubaTaskBackend<S, C> {
    /// Fetch a finished task's result: the first thing is to wait for the job.
    pub fn get_task_result(&self, task_id: &str) -> (step: ResultStep)
        ensures
            step matches ResultStep::Wait { task_id: id, max_wait } && id@ == task_id@ && max_wait
                == self.config.get_result_max_wait,
    {
        ResultStep::Wait {
            task_id: task_id.to_owned(),
            max_wait: self.config.get_result_max_wait,
        }
    }

    /// Whether a step is to read the record of a task.
    pub open spec fn reads_record(self, step: ResultStep, task_id: Seq<char>) -> bool {
        step matches ResultStep::ReadRecord(key) && location::path_text(key) == self.record_path(
            task_id,
        )
    }

    /// Continues a request for a result once a wait has ended, the one for the
    /// job or the one between two looks at the record: whatever it ended with,
    /// the record tells the outcome.
    pub fn result_after_wait(&self, task_id: &str, waited: Result<(), String>) -> (step: ResultStep)
        ensures
            match waited {
                Ok(_) => self.reads_record(step, task_id@),
                Err(why) => replies(
                    step,
                    Err(protocol::internal_error("wait_for_completion failed: "@, why@)),
                ),
            },
    {
        match waited {
            Ok(_) => ResultStep::ReadRecord(self.result_store.key(task_id)),
            Err(why) => ResultStep::Reply(
                Err(McpError::internal_error("wait_for_completion failed: ", why.as_str())),
            ),
        }
    }

    /// Continues a request for a result with the record that was read.
    pub fn result_from_record(
        &self,
        task_id: &str,
        read: Result<Option<ResultRecord>, Error>,
        in_flight: &InFlight,
    ) -> (step: ResultStep)
        ensures
            exists|fallback: CallToolResult|
                is_fallback(read_record(result_store::record_read(read)), fallback)
                    && #[trigger] is_step_from_record(
                    step,
                    task_id@,
                    result_store::record_read(read),
                    in_flight@.dom().contains(task_id@),
                    fallback,
                ),
    {
        let ghost told: Result<Option<ResultRecordView>, Seq<char>> = result_store::record_read(read);
        let ghost known: bool = in_flight@.dom().contains(task_id@);
        match read {
            Err(error) => {
                let why: String = error.text();
                let step: ResultStep = ResultStep::Reply(
                    Err(McpError::internal_error("result store read failed: ", why.as_str())),
                );
                assert(is_step_from_record(step, task_id@, told, known, arbitrary()));
                step
            },
            Ok(Some(record)) => {
                let reply: Result<Value, McpError> = payload_from_record(task_id, record);
                let step: ResultStep = ResultStep::Reply(reply);
                proof {
                    let fallback = choose|fallback: CallToolResult|
                        is_fallback(Some(record@), fallback) && payload_of(reply)
                            == #[trigger] record_payload(task_id@, record@, fallback);
                    assert(is_step_from_record(step, task_id@, told, known, fallback));
                }
                step
            },
            Ok(None) => {
                let step: ResultStep = if in_flight.contains_key(task_id) {
                    ResultStep::CheckDeadline
                } else {
                    ResultStep::ReadJob(task_id.to_owned())
                };
                assert(is_step_from_record(step, task_id@, told, known, arbitrary()));
                step
            },
        }
    }

    /// Continues a request for a result with the job that was looked up because
    /// there is no record and no worker is known to run the task.
    pub fn result_from_job(&self, task_id: &str, read: Result<Option<JobRecord>, String>) -> (step:
        ResultStep)
        ensures
            is_step_from_job(step, task_id@, queue::job_read(read)),
    {
        match read {
            Err(why) => ResultStep::Reply(
                Err(McpError::internal_error("queue lookup failed: ", why.as_str())),
            ),
            Ok(Some(_)) => ResultStep::CheckDeadline,
            Ok(None) => ResultStep::Reply(Err(McpError::not_found(task_id))),
        }
    }

    /// Continues a request for a result of a task that is under way, where the
    /// request itself has been for `elapsed`. Its time bounds the whole request,
    /// the first wait included.
    pub fn result_at_deadline(&self, task_id: &str, elapsed: Duration) -> (step: ResultStep)
        ensures
            is_step_at_deadline(
                step,
                task_id@,
                elapsed,
                self.config.get_result_max_wait,
                self.config.get_result_poll_interval,
            ),
    {
        if elapsed.as_nanos() >= self.config.get_result_max_wait.as_nanos() {
            ResultStep::Reply(
                Err(McpError::invalid_request("task result not yet available: ", task_id)),
            )
        } else {
            let left: Duration = self.config.get_result_max_wait.saturating_sub(elapsed);
            if self.config.get_result_poll_interval.as_nanos() <= left.as_nanos() {
                ResultStep::Sleep(self.config.get_result_poll_interval)
            } else {
                ResultStep::Sleep(left)
            }
        }
    }
}

/// Turn a stored record into the answer to a request for its result: the
/// tool's result for a success, or an error for a failed / cancelled task.
pub fn payload_from_record(task_id: &str, record: ResultRecord) -> (reply: Result<Value, McpError>)
    ensures
        exists|fallback: CallToolResult|
            is_fallback(Some(record@), fallback) && payload_of(reply)
                == #[trigger] record_payload(task_id@, record@, fallback),
{
    let ghost view: ResultRecordView = record@;
    match record.status {
        FinishedStatus::Completed => {
            let result: CallToolResult = record.result.unwrap_or_default();
            let encoded: Result<Value, String> = match protocol::encode_result(result) {
                Ok(value) => Ok(value),
                Err(error) => Err(protocol::json_error_text(&error)),
            };
            let reply: Result<Value, McpError> = payload_from_encoded(encoded);
            assert(is_fallback(Some(view), result));
            assert(payload_of(reply) == record_payload(task_id@, view, result));
            reply
        },
        FinishedStatus::Failed => {
            let reply: Result<Value, McpError> = match record.error {
                Some(message) => Err(McpError::internal_error("task failed: ", message.as_str())),
                None => Err(McpError::internal_error("task failed: ", "(no error message)")),
            };
            assert(payload_of(reply) == record_payload(task_id@, view, arbitrary()));
            reply
        },
        FinishedStatus::Cancelled => {
            let reply: Result<Value, McpError> = Err(
                McpError::invalid_request("task was cancelled: ", task_id),
            );
            assert(payload_of(reply) == record_payload(task_id@, view, arbitrary()));
            reply
        },
    }
}

/// The answer for a completed task, given the JSON value of its result, or why
/// it has none.
pub fn payload_from_encoded(encoded: Result<Value, String>) -> (reply: Result<Value, McpError>)
    ensures
        payload_of(reply) == completed_payload(
            match encoded {
                Ok(value) => Ok(value),
                Err(why) => Err(why@),
            },
        ),
{
    match encoded {
        Ok(value) => Ok(value),
        Err(why) => Err(
            McpError::internal_error("failed to serialize tool result: ", why.as_str()),
        ),
    }
}

} // verus!
