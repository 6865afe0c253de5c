//! The part of the Model Context Protocol that tasks are made of.
use crate::text;
use crate::time;
use rmcp::model::{CallToolRequestParams, CallToolResult, ErrorData};
use serde_json::{Error as JsonError, Value};
use vstd::prelude::*;

verus! {

/// Declares `rmcp::model::CallToolRequestParams`, a request to call a tool.
#[verifier::external_type_specification]
#[verifier::external_body]
pub struct ExCallToolRequestParams(CallToolRequestParams);

/// Declares `rmcp::model::CallToolResult`, what a tool returned.
#[verifier::external_type_specification]
#[verifier::external_body]
pub struct ExCallToolResult(CallToolResult);

/// Declares `rmcp::model::ErrorData`, the error that a tool returned.
#[verifier::external_type_specification]
#[verifier::external_body]
pub struct ExErrorData(ErrorData);

/// Declares `serde_json::Value`.
#[verifier::external_type_specification]
#[verifier::external_body]
pub struct ExValue(Value);

/// Declares `serde_json::Error`.
#[verifier::external_type_specification]
#[verifier::external_body]
pub struct ExJsonError(JsonError);

/// The tool that a request names.
pub uninterp spec fn requested_tool(request: CallToolRequestParams) -> Seq<char>;

/// The JSON bytes of a request.
pub uninterp spec fn request_bytes(request: CallToolRequestParams) -> Result<
    Seq<u8>,
    JsonError,
>;

/// The request that JSON bytes hold.
pub uninterp spec fn parsed_request(bytes: Seq<u8>) -> Result<
    CallToolRequestParams,
    JsonError,
>;

/// The JSON value of a tool's result.
pub uninterp spec fn result_value(result: CallToolResult) -> Result<
    Value,
    JsonError,
>;

/// What a JSON error says.
pub uninterp spec fn json_error_message(error: JsonError) -> Seq<char>;

/// What a tool's error says.
pub uninterp spec fn tool_error_message(error: ErrorData) -> Seq<char>;

/// Reads the field `name` of a `CallToolRequestParams`.
#[verifier::external_body]
pub(crate) fn tool_of(request: &CallToolRequestParams) -> (tool: String)
    ensures
        tool@ == requested_tool(*request),
{
    request.name.to_string()
}

/// Calls `serde_json::to_vec` for a request. The bytes, or the error, depend on
/// the request alone, and a request that is read back from the bytes names the
/// same tool. Nothing is said of its arguments: a number that is not an integer
/// may be read back slightly off, and arguments that nest too deeply are not
/// read back at all.
#[verifier::external_body]
pub(crate) fn encode_request(request: &CallToolRequestParams) -> (encoded: Result<
    Vec<u8>,
    JsonError,
>)
    ensures
        match encoded {
            Ok(bytes) => request_bytes(*request) == Ok::<Seq<u8>, JsonError>(bytes@),
            Err(error) => request_bytes(*request) == Err::<Seq<u8>, JsonError>(error),
        },
        encoded matches Ok(bytes) ==> (parsed_request(bytes@) matches Ok(parsed)
            ==> requested_tool(parsed) == requested_tool(*request)),
{
    serde_json::to_vec(request)
}

/// Calls `serde_json::from_slice` for a request. The request, or the error,
/// depends on the bytes alone.
#[verifier::external_body]
pub(crate) fn decode_request(bytes: &[u8]) -> (request: Result<
    CallToolRequestParams,
    JsonError,
>)
    ensures
        request == parsed_request(bytes@),
{
    serde_json::from_slice(bytes)
}

/// `CallToolResult::default`: some result, of which nothing is said but that this
/// call gave it.
pub assume_specification[ <CallToolResult as Default>::default ]() -> (result: CallToolResult);

/// Calls `serde_json::to_value` for a tool's result. The value, or the error,
/// depends on the result alone.
#[verifier::external_body]
pub(crate) fn encode_result(result: CallToolResult) -> (value: Result<
    Value,
    JsonError,
>)
    ensures
        value == result_value(result),
{
    serde_json::to_value(result)
}

/// Calls `to_string` on a `serde_json::Error`.
#[verifier::external_body]
pub(crate) fn json_error_text(error: &JsonError) -> (text: String)
    ensures
        text@ == json_error_message(*error),
{
    error.to_string()
}

/// Calls `to_string` on an `ErrorData`.
#[verifier::external_body]
pub(crate) fn tool_error_text(error: &ErrorData) -> (text: String)
    ensures
        text@ == tool_error_message(*error),
{
    error.to_string()
}

/// How far a task has come.
#[derive(Debug, Clone, Copy, PartialEq, Eq, Structural)]
pub enum TaskStatus {
    /// The task is queued or running.
    Working,
    /// The task waits for input from the client.
    InputRequired,
    /// The tool returned a result.
    Completed,
    /// The task failed.
    Failed,
    /// The task was cancelled.
    Cancelled,
}

impl TaskStatus {
    /// The name of the status.
    pub open spec fn label(self) -> Seq<char> {
        match self {
            TaskStatus::Working => "Working"@,
            TaskStatus::InputRequired => "InputRequired"@,
            TaskStatus::Completed => "Completed"@,
            TaskStatus::Failed => "Failed"@,
            TaskStatus::Cancelled => "Cancelled"@,
        }
    }

    /// The name of the status.
    pub fn name(self) -> (name: &'static str)
        ensures
            name@ == self.label(),
    {
        match self {
            TaskStatus::Working => "Working",
            TaskStatus::InputRequired => "InputRequired",
            TaskStatus::Completed => "Completed",
            TaskStatus::Failed => "Failed",
            TaskStatus::Cancelled => "Cancelled",
        }
    }
}

/// What a client is told of a task.
#[derive(Debug, Clone)]
pub struct Task {
    /// Identifies the task.
    pub task_id: String,
    /// How far the task has come.
    pub status: TaskStatus,
    /// What there is to say about the status.
    pub status_message: Option<String>,
    /// When the task was created, in RFC 3339.
    pub created_at: String,
    /// When the task last changed, in RFC 3339.
    pub last_updated_at: String,
    /// How long the task is kept once it has finished, in milliseconds.
    pub ttl: Option<u64>,
}

/// The contents of a [`Task`].
pub struct TaskView {
    /// Identifies the task.
    pub task_id: Seq<char>,
    /// How far the task has come.
    pub status: TaskStatus,
    /// What there is to say about the status.
    pub status_message: Option<Seq<char>>,
    /// When the task was created.
    pub created_at: Seq<char>,
    /// When the task last changed.
    pub last_updated_at: Seq<char>,
    /// How long the task is kept once it has finished.
    pub ttl: Option<u64>,
}

impl View for Task {
    type V = TaskView;

    open spec fn view(&self) -> TaskView {
        TaskView {
            task_id: self.task_id@,
            status: self.status,
            status_message: text::text_of(self.status_message),
            created_at: self.created_at@,
            last_updated_at: self.last_updated_at@,
            ttl: self.ttl,
        }
    }
}

/// Which of the protocol's errors a request is answered with.
#[derive(Debug, Clone, Copy, PartialEq, Eq, Structural)]
pub enum McpErrorKind {
    /// What the request names does not exist.
    ResourceNotFound,
    /// The request cannot be met in the state that the task is in.
    InvalidRequest,
    /// Something failed on the way to an answer.
    InternalError,
}

/// The error that a request is answered with.
#[derive(Debug, Clone)]
pub struct McpError {
    /// Which error it is.
    pub kind: McpErrorKind,
    /// What it says.
    pub message: String,
}

/// The contents of a [`McpError`].
pub struct McpErrorView {
    /// Which error it is.
    pub kind: McpErrorKind,
    /// What it says.
    pub message: Seq<char>,
}

impl View for McpError {
    type V = McpErrorView;

    open spec fn view(&self) -> McpErrorView {
        McpErrorView { kind: self.kind, message: self.message@ }
    }
}

/// What an answer to a request holds.
pub type TaskAnswer = Result<TaskView, McpErrorView>;

/// The contents of an answer.
pub open spec fn answer_of(answer: Result<Task, McpError>) -> TaskAnswer {
    match answer {
        Ok(task) => Ok(task@),
        Err(error) => Err(error@),
    }
}

/// The error that something failed: `what` and why.
pub open spec fn internal_error(what: Seq<char>, why: Seq<char>) -> McpErrorView {
    McpErrorView { kind: McpErrorKind::InternalError, message: what + why }
}

/// The error for a task that nothing is known of.
pub open spec fn not_found(task_id: Seq<char>) -> McpErrorView {
    McpErrorView {
        kind: McpErrorKind::ResourceNotFound,
        message: "task not found: "@ + task_id,
    }
}

/// The error for a request that the state of the task rules out.
pub open spec fn invalid_request(what: Seq<char>, detail: Seq<char>) -> McpErrorView {
    McpErrorView { kind: McpErrorKind::InvalidRequest, message: what + detail }
}

impl McpError {
    /// The error that something failed: `what` and why.
    pub fn internal_error(what: &str, why: &str) -> (error: McpError)
        ensures
            error@ == internal_error(what@, why@),
    {
        McpError { kind: McpErrorKind::InternalError, message: text::join(what, why) }
    }

    /// The error for a task that nothing is known of.
    pub fn not_found(task_id: &str) -> (error: McpError)
        ensures
            error@ == not_found(task_id@),
    {
        McpError {
            kind: McpErrorKind::ResourceNotFound,
            message: text::join("task not found: ", task_id),
        }
    }

    /// The error for a request that the state of the task rules out.
    pub fn invalid_request(what: &str, detail: &str) -> (error: McpError)
        ensures
            error@ == invalid_request(what@, detail@),
    {
        McpError { kind: McpErrorKind::InvalidRequest, message: text::join(what, detail) }
    }
}

/// A task that has not finished: created at `since_ms`, seen at `now`.
pub open spec fn working_task(
    task_id: Seq<char>,
    message: Seq<char>,
    since_ms: u64,
    ttl: Option<u64>,
    now: Seq<char>,
) -> TaskView {
    TaskView {
        task_id,
        status: TaskStatus::Working,
        status_message: Some(message),
        created_at: time::timestamp(since_ms, now),
        last_updated_at: now,
        ttl,
    }
}

/// A task that finished at `at_ms`.
pub open spec fn finished_task(
    task_id: Seq<char>,
    status: TaskStatus,
    message: Option<Seq<char>>,
    at_ms: u64,
    ttl: Option<u64>,
    now: Seq<char>,
) -> TaskView {
    TaskView {
        task_id,
        status,
        status_message: message,
        created_at: time::timestamp(at_ms, now),
        last_updated_at: time::timestamp(at_ms, now),
        ttl,
    }
}

/// A task that changed to `status` just now.
pub open spec fn task_just_now(
    task_id: Seq<char>,
    status: TaskStatus,
    message: Option<Seq<char>>,
    ttl: Option<u64>,
    now: Seq<char>,
) -> TaskView {
    TaskView {
        task_id,
        status,
        status_message: message,
        created_at: now,
        last_updated_at: now,
        ttl,
    }
}

impl Task {
    /// A task that has not finished: created at `since_ms`, seen at `now`.
    pub fn working(
        task_id: &str,
        message: &str,
        since_ms: u64,
        ttl: Option<u64>,
        now: &str,
    ) -> (task: Task)
        ensures
            task@ == working_task(task_id@, message@, since_ms, ttl, now@),
    {
        Task {
            task_id: task_id.to_owned(),
            status: TaskStatus::Working,
            status_message: Some(message.to_owned()),
            created_at: time::ms_to_rfc3339(since_ms, now),
            last_updated_at: now.to_owned(),
            ttl,
        }
    }

    /// A task that finished at `at_ms`.
    pub fn finished(
        task_id: &str,
        status: TaskStatus,
        message: Option<String>,
        at_ms: u64,
        ttl: Option<u64>,
        now: &str,
    ) -> (task: Task)
        ensures
            task@ == finished_task(task_id@, status, text::text_of(message), at_ms, ttl, now@),
    {
        let at: String = time::ms_to_rfc3339(at_ms, now);
        Task {
            task_id: task_id.to_owned(),
            status,
            status_message: message,
            created_at: at.clone(),
            last_updated_at: at,
            ttl,
        }
    }

    /// A task that changed to `status` just now.
    pub fn just_now(
        task_id: &str,
        status: TaskStatus,
        message: Option<String>,
        ttl: Option<u64>,
        now: &str,
    ) -> (task: Task)
        ensures
            task@ == task_just_now(task_id@, status, text::text_of(message), ttl, now@),
    {
        Task {
            task_id: task_id.to_owned(),
            status,
            status_message: message,
            created_at: now.to_owned(),
            last_updated_at: now.to_owned(),
            ttl,
        }
    }
}

} // verus!
