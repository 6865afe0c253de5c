//! Requests to run a tool as a task.
use crate::audit;
use crate::audit::{AuditEntry, AuditEvent};
use crate::backend::TaqubaTaskBackend;
use crate::in_flight;
use crate::in_flight::{InFlight, InFlightInfo, InFlightInfoView};
use crate::protocol;
use crate::protocol::{McpError, Task, TaskStatus};
use crate::queue;
use crate::queue::{NewJob, NewJobView};
use crate::time;
use crate::worker;
use rmcp::model::CallToolRequestParams;
use vstd::prelude::*;

verus! {

/// The job for a request to call `tool`: it goes to the tool's own queue, with
/// the request as its payload and the tool's name among its headers.
pub open spec fn job_for(tool: Seq<char>, payload: Seq<u8>) -> NewJobView {
    NewJobView { queue: tool, payload, headers: seq![("tool"@, tool)] }
}

/// Whether `job` is the job for a request to call `tool`, given the bytes of the
/// request or what the error says that it has none.
pub open spec fn is_job_for(
    job: Result<NewJob, McpError>,
    tool: Seq<char>,
    encoded: Result<Seq<u8>, Seq<char>>,
) -> bool {
    match (encoded, job) {
        (Ok(payload), Ok(job)) => job@ == job_for(tool, payload),
        (Err(why), Err(error)) => error@ == protocol::internal_error(
            "failed to serialize tool request: "@,
            why,
        ),
        _ => false,
    }
}

/// The bytes of a request, or what the error says that it has none.
pub open spec fn encoded_request(request: CallToolRequestParams) -> Result<Seq<u8>, Seq<char>> {
    match protocol::request_bytes(request) {
        Ok(bytes) => Ok(bytes),
        Err(error) => Err(protocol::json_error_message(error)),
    }
}

/// Whether the request that a payload holds, if it holds one, calls `tool`.
pub open spec fn payload_calls(payload: Seq<u8>, tool: Seq<char>) -> bool {
    protocol::parsed_request(payload) matches Ok(parsed) ==> protocol::requested_tool(parsed)
        == tool
}

/// A task that was accepted.
#[derive(Debug)]
pub struct Submission {
    /// The entry to append to the audit log.
    pub submitted: AuditEntry,
    /// What the client is told.
    pub task: Task,
}

/// Whether a submission is answered as it should be: a task that the queue took
/// is in flight from `now_ms` on, queued unless a worker has started it in the
/// meantime, its submission is recorded, and the client is told that it is
/// queued. A queue that refused is an error, and changes nothing.
pub open spec fn is_submission(
    submission: Result<Submission, McpError>,
    tool: Seq<char>,
    enqueued: Result<Seq<char>, Seq<char>>,
    before: Map<Seq<char>, InFlightInfoView>,
    after: Map<Seq<char>, InFlightInfoView>,
    now_ms: u64,
    ttl: Option<u64>,
    now: Seq<char>,
) -> bool {
    match (enqueued, submission) {
        (Ok(task_id), Ok(submission)) => {
            &&& submission.submitted@ == worker::event_entry(
                AuditEvent::Submitted,
                task_id,
                tool,
                now_ms,
                None,
            )
            &&& submission.task@ == protocol::task_just_now(
                task_id,
                TaskStatus::Working,
                Some("queued"@),
                ttl,
                now,
            )
            &&& after == before.insert(
                task_id,
                InFlightInfoView {
                    tool,
                    started_at_ms: now_ms,
                    running: in_flight::is_running(before, task_id),
                },
            )
        },
        (Err(why), Err(error)) => {
            &&& error@ == protocol::internal_error("taquba enqueue failed: "@, why)
            &&& after == before
        },
        _ => false,
    }
}

/// The id that the queue gave, or what its error says.
pub open spec fn enqueue_reply(reply: Result<String, String>) -> Result<Seq<char>, Seq<char>> {
    match reply {
        Ok(task_id) => Ok(task_id@),
        Err(why) => Err(why@),
    }
}

impl<S, C> TaqubaTaskBackend<S, C> {
    /// Enqueue a task-based tool invocation: the job to put into the queue. The
    /// request that a worker reads from its payload calls the same tool.
    pub fn enqueue_task(&self, request: &CallToolRequestParams) -> (job: Result<NewJob, McpError>)
        ensures
            is_job_for(job, protocol::requested_tool(*request), encoded_request(*request)),
            job matches Ok(job) ==> payload_calls(
                job@.payload,
                protocol::requested_tool(*request),
            ),
    {
        let tool: String = protocol::tool_of(request);
        let encoded: Result<Vec<u8>, String> = match protocol::encode_request(request) {
            Ok(payload) => Ok(payload),
            Err(error) => Err(protocol::json_error_text(&error)),
        };
        self.enqueue_encoded(tool.as_str(), encoded)
    }

    /// The job for a request to call `tool`, given the bytes of the request, or
    /// why it has none.
    pub fn enqueue_encoded(&self, tool: &str, encoded: Result<Vec<u8>, String>) -> (job: Result<
        NewJob,
        McpError,
    >)
        ensures
            is_job_for(
                job,
                tool@,
                match encoded {
                    Ok(payload) => Ok(payload@),
                    Err(why) => Err(why@),
                },
            ),
    {
        match encoded {
            Ok(payload) => {
                let mut headers: Vec<(String, String)> = Vec::new();
                headers.push(("tool".to_owned(), tool.to_owned()));
                assert(queue::header_views(headers@) =~= seq![("tool"@, tool@)]);
                Ok(NewJob { queue: tool.to_owned(), payload, headers })
            },
            Err(why) => Err(
                McpError::internal_error("failed to serialize tool request: ", why.as_str()),
            ),
        }
    }

    /// Answers a request whose job for `tool` was just handed to the queue.
    pub fn enqueued(
        &self,
        tool: &str,
        reply: Result<String, String>,
        in_flight: &mut InFlight,
        now_ms: u64,
    ) -> (submission: Result<Submission, McpError>)
        ensures
            exists|now: Seq<char>|
                time::is_now(now) && #[trigger] is_submission(
                    submission,
                    tool@,
                    enqueue_reply(reply),
                    old(in_flight)@,
                    final(in_flight)@,
                    now_ms,
                    self.ttl(),
                    now,
                ),
    {
        let now: String = time::now_text();
        self.enqueued_at(tool, reply, in_flight, now_ms, now.as_str())
    }

    /// Answers, at `now`, a request whose job for `tool` was handed to the
    /// queue.
    pub fn enqueued_at(
        &self,
        tool: &str,
        reply: Result<String, String>,
        in_flight: &mut InFlight,
        now_ms: u64,
        now: &str,
    ) -> (submission: Result<Submission, McpError>)
        ensures
            is_submission(
                submission,
                tool@,
                enqueue_reply(reply),
                old(in_flight)@,
                final(in_flight)@,
                now_ms,
                self.ttl(),
                now@,
            ),
    {
        match reply {
            Ok(task_id) => {
                let running: bool = match in_flight.get(task_id.as_str()) {
                    Some(info) => info.running,
                    None => false,
                };
                in_flight.insert(
                    task_id.clone(),
                    InFlightInfo { tool: tool.to_owned(), started_at_ms: now_ms, running },
                );
                let submitted: AuditEntry = audit::entry(
                    AuditEvent::Submitted,
                    task_id.as_str(),
                    tool,
                    now_ms,
                    None,
                );
                let task: Task = Task::just_now(
                    task_id.as_str(),
                    TaskStatus::Working,
                    Some("queued".to_owned()),
                    self.task_ttl_ms(),
                    now,
                );
                Ok(Submission { submitted, task })
            },
            Err(why) => Err(McpError::internal_error("taquba enqueue failed: ", why.as_str())),
        }
    }
}

} // verus!
