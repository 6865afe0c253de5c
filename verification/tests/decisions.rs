//! What is answered to requests, and what becomes of jobs.
use std::time::Duration;

use rmcp::model::{CallToolRequestParams, CallToolResult, Content, ErrorData};
use serde_json::Value;
use taquba_mcp::audit::AuditEvent;
use taquba_mcp::backend::{TaqubaTaskBackend, TaqubaTaskBackendConfig};
use taquba_mcp::cancel::CancelStep;
use taquba_mcp::error::Error;
use taquba_mcp::in_flight::InFlight;
use taquba_mcp::info::InfoStep;
use taquba_mcp::outcome::{payload_from_encoded, payload_from_record, ResultStep};
use taquba_mcp::pointer::TaskPointer;
use taquba_mcp::protocol::{McpError, McpErrorKind, Task, TaskStatus};
use taquba_mcp::queue::{CancelOutcome, JobRecord, JobStatus};
use taquba_mcp::result_store::{FinishedStatus, ResultRecord};
use taquba_mcp::worker::{
    after_claim, discover_task_tools, filter_task_tools, mark_in_flight, next_claim, plan_workers,
    pointer_effects, pointers_to_drop, reaper_step, settle_job, settle_told_job, start_job,
    start_parsed_job, ClaimOutcome, JobAction, JobStart, Pool, ReaperEvent, ReaperStep,
    RetryPolicy, TaskSupport, ToolInfo, WorkerSlot, WorkerStep,
};

const NOW: &str = "2023-11-14T22:13:20+00:00";
const NOW_MS: u64 = 1_700_000_000_000;
const DAY_MS: u64 = 86_400_000;
const RETENTION: Duration = Duration::from_secs(24 * 60 * 60);

fn backend() -> TaqubaTaskBackend<(), u8> {
    TaqubaTaskBackend::builder()
        .object_store(())
        .prefix("itest".to_string())
        .build(0)
        .expect("backend builds")
}

fn job(status: JobStatus, attempts: u32, max_attempts: u32) -> JobRecord {
    JobRecord {
        id: "t1".to_string(),
        queue: "double-queue".to_string(),
        payload: b"{\"name\":\"double\",\"arguments\":{\"n\":21}}".to_vec(),
        headers: vec![
            ("other".to_string(), "x".to_string()),
            ("tool".to_string(), "double".to_string()),
        ],
        status,
        attempts,
        max_attempts,
        enqueued_at: NOW_MS,
    }
}

fn record(status: FinishedStatus, error: Option<&str>) -> ResultRecord {
    ResultRecord {
        task_id: "t1".to_string(),
        tool: "double".to_string(),
        status,
        result: None,
        error: error.map(|error| error.to_string()),
        completed_at_ms: NOW_MS,
        expires_at_ms: NOW_MS + DAY_MS,
    }
}

fn text_result(text: &str) -> CallToolResult {
    CallToolResult::success(vec![Content::text(text)])
}

fn in_flight() -> InFlight {
    let mut tasks = InFlight::new();
    mark_in_flight(&mut tasks, "t1", "double", NOW_MS);
    tasks
}

fn info_reply(step: InfoStep) -> Result<Task, McpError> {
    match step {
        InfoStep::Reply(reply) => reply,
        _ => panic!("expected a reply"),
    }
}

fn result_reply(step: ResultStep) -> Result<Value, McpError> {
    match step {
        ResultStep::Reply(reply) => reply,
        _ => panic!("expected a reply"),
    }
}

fn cancel_reply(step: CancelStep) -> Result<Task, McpError> {
    match step {
        CancelStep::Reply(reply) => reply,
        _ => panic!("expected a reply"),
    }
}

fn refused<T>(reply: Result<T, McpError>) -> (McpErrorKind, String) {
    match reply {
        Ok(_) => panic!("expected an error"),
        Err(error) => (error.kind, error.message),
    }
}

#[test]
fn policies_have_their_values() {
    let default = RetryPolicy::default();
    assert_eq!(default.max_attempts, 5);
    assert_eq!(default.initial_backoff, Duration::from_millis(500));
    assert_eq!(default.max_backoff, Duration::from_secs(60));
    let never = RetryPolicy::never();
    assert_eq!(never.max_attempts, 1);
    assert_eq!(never.initial_backoff, Duration::ZERO);
    assert_eq!(never.max_backoff, Duration::ZERO);
    let own = RetryPolicy::exponential()
        .max_attempts(2)
        .initial_backoff(Duration::from_secs(3))
        .max_backoff(Duration::from_secs(4));
    let config = own.to_queue_config();
    assert_eq!(config.max_attempts, 2);
    assert_eq!(config.retry_backoff_base, Duration::from_secs(3));
    assert_eq!(config.retry_backoff_max, Duration::from_secs(4));
    assert_eq!(config.default_priority, 1_000);
}

#[test]
fn the_configuration_has_defaults() {
    let config = TaqubaTaskBackendConfig::default();
    assert_eq!(config.result_retention, Duration::from_secs(86_400));
    assert_eq!(config.audit_retention, Duration::from_secs(2_592_000));
    assert_eq!(config.default_retry_policy.max_attempts, 5);
    assert_eq!(config.workers_per_tool, 1);
    assert_eq!(config.reaper_interval, Duration::from_secs(60));
    assert!(config.enable_reaper);
    assert_eq!(config.get_result_max_wait, Duration::from_secs(30));
    assert_eq!(config.get_result_poll_interval, Duration::from_millis(250));
}

#[test]
fn a_builder_needs_a_store_and_a_prefix() {
    let nothing = TaqubaTaskBackend::<(), u8>::builder().build(0);
    assert_eq!(
        nothing.err().expect("an error").text(),
        "configuration: object_store is required"
    );
    let no_store = TaqubaTaskBackend::<(), u8>::builder().prefix("p".to_string()).build(0);
    assert_eq!(
        no_store.err().expect("an error").text(),
        "configuration: object_store is required"
    );
    let no_prefix = TaqubaTaskBackend::<(), u8>::builder().object_store(()).build(0);
    assert_eq!(
        no_prefix.err().expect("an error").text(),
        "configuration: prefix is required"
    );
}

#[test]
fn a_builder_keeps_what_it_is_given() {
    let built = TaqubaTaskBackend::builder()
        .object_store("store")
        .prefix("data/mcp//".to_string())
        .result_retention(Duration::from_secs(1))
        .audit_retention(Duration::from_secs(2))
        .default_retry_policy(RetryPolicy::never())
        .workers_per_tool(3)
        .disable_reaper()
        .clock(7u8)
        .build(0)
        .expect("backend builds");
    assert_eq!(built.object_store, "store");
    assert_eq!(built.clock, 7);
    assert_eq!(built.queue_path, "data/mcp/queue");
    assert_eq!(built.queue_config.max_attempts, 1);
    assert_eq!(built.result_store.key("t1").to_string(), "data/mcp/results/t1.json");
    assert_eq!(built.audit_log.key(0).to_string().len(), "data/mcp/audit/".len() + 31);
    assert_eq!(built.config().audit_retention, Duration::from_secs(2));
    assert_eq!(built.config().workers_per_tool, 3);
    assert!(!built.config().enable_reaper);
    assert_eq!(built.task_ttl_ms(), Some(1_000));
    let config = TaqubaTaskBackendConfig::default();
    let other = TaqubaTaskBackend::builder().object_store(()).prefix("p".to_string());
    let other = other.workers_per_tool(9).config(config).build(1u8).expect("backend builds");
    assert_eq!(other.config().workers_per_tool, 1);
    assert_eq!(other.clock, 1);
}

#[test]
fn a_request_becomes_a_job_for_its_tool() {
    let request = CallToolRequestParams::new("double");
    let new = backend().enqueue_task(&request).expect("a job");
    assert_eq!(new.queue, "double");
    assert_eq!(new.payload, b"{\"name\":\"double\"}".to_vec());
    assert_eq!(new.headers, vec![("tool".to_string(), "double".to_string())]);
    let claimed = JobRecord { payload: new.payload, headers: new.headers, ..job(JobStatus::Claimed, 1, 5) };
    assert_eq!(claimed.tool(), "double");
    match start_job(&claimed, &mut InFlight::new(), NOW_MS, RETENTION) {
        JobStart::Run { request: read, .. } => assert_eq!(read, request),
        JobStart::Reject(_) => panic!("the request is readable"),
    }
}

#[test]
fn a_request_that_cannot_be_encoded_is_refused() {
    let refusal = refused(backend().enqueue_encoded("double", Err("key must be a string".to_string())));
    assert_eq!(refusal.0, McpErrorKind::InternalError);
    assert_eq!(refusal.1, "failed to serialize tool request: key must be a string");
}

#[test]
fn an_accepted_task_is_queued_and_in_flight() {
    let mut tasks = InFlight::new();
    let accepted = backend()
        .enqueued_at("double", Ok("t1".to_string()), &mut tasks, NOW_MS, NOW)
        .expect("accepted");
    assert_eq!(accepted.submitted.event, AuditEvent::Submitted);
    assert_eq!(accepted.submitted.at_ms, NOW_MS);
    assert_eq!(accepted.task.task_id, "t1");
    assert_eq!(accepted.task.status, TaskStatus::Working);
    assert_eq!(accepted.task.status_message.as_deref(), Some("queued"));
    assert_eq!(accepted.task.created_at, NOW);
    assert_eq!(accepted.task.last_updated_at, NOW);
    assert_eq!(accepted.task.ttl, Some(DAY_MS));
    assert_eq!(tasks.get("t1").expect("in flight").tool, "double");
    let told = info_reply(backend().info_from_pointer_at("t1", Ok(None), &tasks, NOW));
    let task = told.expect("known");
    assert_eq!(task.status, TaskStatus::Working);
    assert_eq!(task.status_message.as_deref(), Some("queued"));
}

#[test]
fn a_task_that_was_started_before_it_was_accepted_is_running() {
    let mut tasks = in_flight();
    let accepted = backend().enqueued_at("double", Ok("t1".to_string()), &mut tasks, 7, NOW);
    assert_eq!(accepted.expect("accepted").task.status_message.as_deref(), Some("queued"));
    let info = tasks.get("t1").expect("in flight");
    assert_eq!((info.started_at_ms, info.running), (7, true));
}

#[test]
fn a_refused_enqueue_changes_nothing() {
    let mut tasks = InFlight::new();
    let refusal = refused(backend().enqueued("double", Err("full".to_string()), &mut tasks, NOW_MS));
    assert_eq!(refusal.1, "taquba enqueue failed: full");
    assert_eq!(tasks.len(), 0);
}

#[test]
fn the_tool_is_the_header_or_the_queue() {
    assert_eq!(job(JobStatus::Claimed, 1, 5).tool(), "double");
    let bare = JobRecord { headers: Vec::new(), ..job(JobStatus::Claimed, 1, 5) };
    assert_eq!(bare.tool(), "double-queue");
    assert!(bare.tool_header().is_none());
}

#[test]
fn a_claimed_job_is_started() {
    let mut tasks = InFlight::new();
    match start_job(&job(JobStatus::Claimed, 1, 5), &mut tasks, NOW_MS, RETENTION) {
        JobStart::Run { started, request } => {
            assert_eq!(started.event, AuditEvent::Started);
            assert_eq!(started.tool, "double");
            assert_eq!(request.name, "double");
            assert_eq!(request.arguments.expect("arguments")["n"], Value::from(21));
        }
        JobStart::Reject(_) => panic!("the payload is a request"),
    }
    assert_eq!(tasks.get("t1").expect("in flight").started_at_ms, NOW_MS);
}

#[test]
fn a_job_without_a_request_is_rejected() {
    let broken = JobRecord { payload: b"nonsense".to_vec(), ..job(JobStatus::Claimed, 1, 5) };
    let mut tasks = in_flight();
    mark_in_flight(&mut tasks, "t2", "double", 3);
    let actions = match start_job(&broken, &mut tasks, NOW_MS, RETENTION) {
        JobStart::Reject(actions) => actions,
        JobStart::Run { .. } => panic!("the payload is no request"),
    };
    assert!(tasks.get("t1").is_none());
    assert_eq!(tasks.get("t2").expect("in flight").started_at_ms, 3);
    let why = "payload deserialization failed: expected ident at line 1 column 2";
    match &actions[..] {
        [JobAction::PutResult(record), JobAction::RecordAudit(entry), JobAction::DeadLetter(reason)] => {
            assert_eq!(record.status, FinishedStatus::Failed);
            assert_eq!(record.error.as_deref(), Some(why));
            assert_eq!(record.expires_at_ms, NOW_MS + DAY_MS);
            assert_eq!(entry.event, AuditEvent::Failed);
            assert_eq!(entry.error.as_deref(), Some(why));
            assert_eq!(reason, "payload deserialization failed");
        }
        _ => panic!("unexpected plan"),
    }
}

#[test]
fn a_rejection_names_its_reason() {
    let claimed = job(JobStatus::Claimed, 1, 5);
    match start_parsed_job(&claimed, Err("no".to_string()), &mut InFlight::new(), 1, RETENTION) {
        JobStart::Reject(actions) => match &actions[0] {
            JobAction::PutResult(record) => {
                assert_eq!(record.error.as_deref(), Some("payload deserialization failed: no"));
            }
            _ => panic!("the record comes first"),
        },
        JobStart::Run { .. } => panic!("there is no request"),
    }
}

#[test]
fn a_returned_result_completes_the_task() {
    for was_cancelled in [false, true] {
        let mut tasks = in_flight();
        let claimed = job(JobStatus::Claimed, 5, 5);
        let outcome = Ok(text_result("42"));
        let actions = settle_job(&claimed, outcome, was_cancelled, &mut tasks, NOW_MS, RETENTION);
        assert_eq!(tasks.len(), 0);
        match &actions[..] {
            [JobAction::PutResult(record), JobAction::RecordAudit(entry), JobAction::Ack(pointer)] => {
                assert_eq!(record.task_id, "t1");
                assert_eq!(record.tool, "double");
                assert_eq!(record.status, FinishedStatus::Completed);
                assert_eq!(record.result, Some(text_result("42")));
                assert!(record.error.is_none());
                assert_eq!(entry.event, AuditEvent::Completed);
                assert_eq!(pointer.status, record.status);
                assert_eq!(pointer.completed_at_ms, record.completed_at_ms);
                assert_eq!(pointer.expires_at_ms, NOW_MS + DAY_MS);
            }
            _ => panic!("unexpected plan"),
        }
    }
}

#[test]
fn an_error_after_a_cancellation_cancels_the_task() {
    let claimed = job(JobStatus::Claimed, 1, 5);
    let outcome = Err(ErrorData::internal_error("cancelled by client", None));
    let actions = settle_job(&claimed, outcome, true, &mut in_flight(), NOW_MS, RETENTION);
    match &actions[..] {
        [JobAction::PutResult(record), JobAction::RecordAudit(entry), JobAction::Ack(pointer)] => {
            assert_eq!(record.status, FinishedStatus::Cancelled);
            assert!(record.result.is_none() && record.error.is_none());
            assert_eq!(entry.event, AuditEvent::Cancelled);
            assert!(entry.error.is_none());
            assert_eq!(pointer.status, FinishedStatus::Cancelled);
        }
        _ => panic!("unexpected plan"),
    }
}

#[test]
fn a_failure_is_retried_while_attempts_are_left() {
    let claimed = job(JobStatus::Claimed, 4, 5);
    let outcome = Err(ErrorData::internal_error("boom", None));
    let actions = settle_job(&claimed, outcome, false, &mut in_flight(), NOW_MS, RETENTION);
    match &actions[..] {
        [JobAction::RecordAudit(entry), JobAction::Nack(reason)] => {
            assert_eq!(entry.event, AuditEvent::Failed);
            assert_eq!(entry.error.as_deref(), Some("-32603: boom"));
            assert_eq!(reason, "-32603: boom");
        }
        _ => panic!("unexpected plan"),
    }
}

#[test]
fn the_last_failure_fails_the_task() {
    for (attempts, max_attempts) in [(5, 5), (6, 5), (1, 1), (0, 0), (u32::MAX, u32::MAX)] {
        let claimed = job(JobStatus::Claimed, attempts, max_attempts);
        let outcome = Err("boom".to_string());
        let actions =
            settle_told_job(&claimed, outcome, false, &mut in_flight(), NOW_MS, RETENTION);
        match &actions[..] {
            [JobAction::PutResult(record), JobAction::RecordAudit(entry), JobAction::DeadLetter(reason)] => {
                assert_eq!(record.status, FinishedStatus::Failed);
                assert_eq!(record.error.as_deref(), Some("boom"));
                assert_eq!(entry.error.as_deref(), Some("boom"));
                assert_eq!(reason, "boom");
            }
            _ => panic!("unexpected plan"),
        }
    }
}

#[test]
fn an_ack_carries_the_pointer_if_there_is_one() {
    let writes = pointer_effects("t1", Ok(vec![1, 2, 3]));
    assert_eq!(writes, vec![(b"mcp:task:t1".to_vec(), vec![1, 2, 3])]);
    assert!(pointer_effects("t1", Err("no".to_string())).is_empty());
}

fn tool(name: &str, task_support: TaskSupport) -> ToolInfo {
    ToolInfo { name: name.to_string(), task_support }
}

#[test]
fn workers_are_started_for_task_tools() {
    let listed = vec![
        tool("a", TaskSupport::Optional),
        tool("b", TaskSupport::Forbidden),
        tool("c", TaskSupport::Required),
    ];
    assert_eq!(filter_task_tools(&listed), vec!["a", "c"]);
    let tools = discover_task_tools(Ok(listed)).expect("tools");
    let (workers, reaper) = match plan_workers(&tools, 2, true) {
        Pool::Running { workers, reaper } => (workers, reaper),
        Pool::Idle => panic!("there are tools"),
    };
    assert!(reaper);
    let slots: Vec<(String, usize)> =
        workers.into_iter().map(|slot| (slot.tool, slot.worker_index)).collect();
    let expected = [("a", 0), ("a", 1), ("c", 0), ("c", 1)];
    assert_eq!(slots.len(), expected.len());
    for (slot, (name, index)) in slots.iter().zip(expected) {
        assert_eq!((slot.0.as_str(), slot.1), (name, index));
    }
}

#[test]
fn a_pool_without_tools_is_idle() {
    assert!(matches!(plan_workers(&Vec::new(), 4, true), Pool::Idle));
    let tools = vec!["a".to_string()];
    assert!(matches!(plan_workers(&tools, 0, false), Pool::Idle));
    match plan_workers(&tools, 0, true) {
        Pool::Running { workers, reaper } => assert!(workers.is_empty() && reaper),
        Pool::Idle => panic!("the reaper runs"),
    }
    match plan_workers(&tools, 1, false) {
        Pool::Running { workers, reaper } => assert!(workers.len() == 1 && !reaper),
        Pool::Idle => panic!("a worker runs"),
    }
}

#[test]
fn a_failed_tool_listing_is_a_configuration_error() {
    let failed = discover_task_tools(Err(ErrorData::internal_error("boom", None)));
    assert_eq!(
        failed.err().expect("an error").text(),
        "configuration: list_tools failed during worker bootstrap: -32603: boom"
    );
}

#[test]
fn a_worker_goes_on_until_shutdown() {
    let slot = WorkerSlot { tool: "double".to_string(), worker_index: 1 };
    let claim = next_claim(&slot, Duration::from_secs(30));
    assert_eq!(claim.queue, "double");
    assert_eq!(claim.lease, Duration::from_secs(30));
    assert_eq!(claim.wait, Duration::from_secs(5));
    assert!(matches!(after_claim(ClaimOutcome::Shutdown), WorkerStep::Stop));
    assert!(matches!(after_claim(ClaimOutcome::Empty), WorkerStep::ClaimAgain));
    match after_claim(ClaimOutcome::Failed) {
        WorkerStep::BackOff(wait) => assert_eq!(wait, Duration::from_secs(1)),
        _ => panic!("a failed claim backs off"),
    }
    match after_claim(ClaimOutcome::Claimed(job(JobStatus::Claimed, 1, 5))) {
        WorkerStep::Process(claimed) => assert_eq!(claimed.id, "t1"),
        _ => panic!("a claimed job is processed"),
    }
}

#[test]
fn pointers_are_dropped_with_their_records() {
    let swept: Result<Vec<String>, Error> = Ok(vec!["t1".to_string()]);
    assert_eq!(pointers_to_drop(&swept), vec![b"mcp:task:t1".to_vec()]);
    let failed: Result<Vec<String>, Error> = Err(Error::ObjectStore("gone".to_string()));
    assert!(pointers_to_drop(&failed).is_empty());
}

#[test]
fn a_sweep_goes_all_its_way() {
    let config = TaqubaTaskBackendConfig::default();
    let step = |event: ReaperEvent| reaper_step(event, &config, NOW_MS);
    match step(ReaperEvent::Started) {
        ReaperStep::Wait(interval) => assert_eq!(interval, Duration::from_secs(60)),
        _ => panic!("the reaper waits first"),
    }
    assert!(matches!(step(ReaperEvent::Shutdown), ReaperStep::Stop));
    assert!(matches!(step(ReaperEvent::Elapsed), ReaperStep::SweepResults));
    match step(ReaperEvent::ResultsSwept(Ok(vec!["t1".to_string()]))) {
        ReaperStep::DropPointers(keys) => assert_eq!(keys, vec![b"mcp:task:t1".to_vec()]),
        _ => panic!("the pointers are dropped"),
    }
    match step(ReaperEvent::ResultsSwept(Err(Error::ObjectStore("gone".to_string())))) {
        ReaperStep::DropPointers(keys) => assert!(keys.is_empty()),
        _ => panic!("the sweep goes on"),
    }
    match step(ReaperEvent::PointersDropped) {
        ReaperStep::SweepAudit(cutoff_ms) => assert_eq!(cutoff_ms, NOW_MS - 30 * DAY_MS),
        _ => panic!("the audit log is swept"),
    }
    assert!(matches!(step(ReaperEvent::AuditSwept), ReaperStep::Wait(_)));
}

#[test]
fn a_lookup_starts_with_the_pointer() {
    match backend().get_task_info("t1") {
        InfoStep::ReadPointer(key) => assert_eq!(key, b"mcp:task:t1".to_vec()),
        _ => panic!("the pointer is read first"),
    }
}

#[test]
fn a_pointer_wins_over_a_stale_entry() {
    let pointer = TaskPointer {
        status: FinishedStatus::Completed,
        completed_at_ms: 0,
        expires_at_ms: 1,
    };
    let told = info_reply(backend().info_from_pointer("t1", Ok(Some(pointer)), &in_flight()));
    let task = told.expect("known");
    assert_eq!(task.status, TaskStatus::Completed);
    assert!(task.status_message.is_none());
    assert_eq!(task.created_at, "1970-01-01T00:00:00+00:00");
    assert_eq!(task.last_updated_at, "1970-01-01T00:00:00+00:00");
    assert_eq!(task.ttl, Some(DAY_MS));
}

#[test]
fn a_task_in_flight_is_running() {
    let later = "2023-11-15T00:00:00+00:00";
    let told = info_reply(backend().info_from_pointer_at("t1", Ok(None), &in_flight(), later));
    let task = told.expect("known");
    assert_eq!(task.status, TaskStatus::Working);
    assert_eq!(task.status_message.as_deref(), Some("running"));
    assert_eq!(task.created_at, NOW);
    assert_eq!(task.last_updated_at, later);
    match backend().info_from_pointer("t2", Ok(None), &in_flight()) {
        InfoStep::ReadJob(id) => assert_eq!(id, "t2"),
        _ => panic!("the queue is asked next"),
    }
}

#[test]
fn a_live_job_is_queued_or_running() {
    for (status, message) in [
        (JobStatus::Pending, "queued"),
        (JobStatus::Scheduled, "queued"),
        (JobStatus::Claimed, "running"),
    ] {
        let told = info_reply(backend().info_from_job_at("t1", Ok(Some(job(status, 1, 5))), "later"));
        let task = told.expect("known");
        assert_eq!(task.status, TaskStatus::Working);
        assert_eq!(task.status_message.as_deref(), Some(message));
        assert_eq!(task.created_at, NOW);
        assert_eq!(task.last_updated_at, "later");
    }
}

#[test]
fn without_a_live_job_the_record_is_read() {
    let done = Some(job(JobStatus::Done, 1, 5));
    let dead = Some(job(JobStatus::Dead, 1, 5));
    for found in [None, done, dead] {
        match backend().info_from_job("t1", Ok(found)) {
            InfoStep::ReadRecord(key) => assert_eq!(key.to_string(), "itest/results/t1.json"),
            _ => panic!("the record is read"),
        }
    }
}

#[test]
fn a_record_tells_how_the_task_ended() {
    let found = Ok(Some(record(FinishedStatus::Failed, Some("boom"))));
    let task = backend().info_from_record("t1", found).expect("known");
    assert_eq!(task.status, TaskStatus::Failed);
    assert_eq!(task.status_message.as_deref(), Some("boom"));
    assert_eq!(task.created_at, NOW);
    let found = Ok(Some(record(FinishedStatus::Cancelled, None)));
    let task = backend().info_from_record_at("t1", found, "later").expect("known");
    assert_eq!(task.status, TaskStatus::Cancelled);
    assert!(task.status_message.is_none());
}

#[test]
fn a_lookup_that_fails_says_where() {
    let closed = || "closed".to_string();
    let failed = backend().info_from_pointer("t1", Err(Error::Taquba(closed())), &in_flight());
    assert_eq!(
        refused(info_reply(failed)),
        (McpErrorKind::InternalError, "pointer read failed: taquba: closed".to_string())
    );
    assert_eq!(
        refused(info_reply(backend().info_from_job("t1", Err(closed())))),
        (McpErrorKind::InternalError, "queue lookup failed: closed".to_string())
    );
    assert_eq!(
        refused(backend().info_from_record("t1", Err(Error::ObjectStore(closed())))),
        (McpErrorKind::InternalError, "result store read failed: object store: closed".to_string())
    );
    assert_eq!(
        refused(backend().info_from_record("t1", Ok(None))),
        (McpErrorKind::ResourceNotFound, "task not found: t1".to_string())
    );
}

#[test]
fn a_list_holds_running_and_finished_tasks() {
    let mut tasks = InFlight::new();
    mark_in_flight(&mut tasks, "t2", "double", 0);
    let accepted = backend().enqueued("double", Ok("t3".to_string()), &mut tasks, 0);
    assert!(accepted.is_ok());
    let finished = vec![
        record(FinishedStatus::Completed, None),
        record(FinishedStatus::Failed, Some("boom")),
    ];
    let listed = backend().list_tasks_at(&tasks, Ok(finished), "later").expect("listed");
    assert_eq!(listed.len(), 4);
    assert_eq!(listed[1].task_id, "t3");
    assert_eq!(listed[1].status_message.as_deref(), Some("queued"));
    let listed = vec![listed[0].clone(), listed[2].clone(), listed[3].clone()];
    assert_eq!(listed[0].task_id, "t2");
    assert_eq!(listed[0].status, TaskStatus::Working);
    assert_eq!(listed[0].status_message.as_deref(), Some("running"));
    assert_eq!(listed[0].created_at, "1970-01-01T00:00:00+00:00");
    assert_eq!(listed[0].last_updated_at, "later");
    assert_eq!(listed[1].status, TaskStatus::Completed);
    assert_eq!(listed[1].last_updated_at, NOW);
    assert_eq!(listed[1].ttl, Some(DAY_MS));
    assert_eq!(listed[2].status, TaskStatus::Failed);
    assert_eq!(listed[2].status_message.as_deref(), Some("boom"));
}

#[test]
fn a_list_needs_the_result_store() {
    let failed = backend().list_tasks(&in_flight(), Err(Error::ObjectStore("gone".to_string())));
    assert_eq!(
        refused(failed),
        (McpErrorKind::InternalError, "result store list failed: object store: gone".to_string())
    );
}

#[test]
fn a_request_for_a_result_waits_first() {
    match backend().get_task_result("t1") {
        ResultStep::Wait { task_id, max_wait } => {
            assert_eq!(task_id, "t1");
            assert_eq!(max_wait, Duration::from_secs(30));
        }
        _ => panic!("the job is waited for"),
    }
    match backend().result_after_wait("t1", Ok(())) {
        ResultStep::ReadRecord(key) => assert_eq!(key.to_string(), "itest/results/t1.json"),
        _ => panic!("the record is read"),
    }
    assert_eq!(
        refused(result_reply(backend().result_after_wait("t1", Err("closed".to_string())))),
        (McpErrorKind::InternalError, "wait_for_completion failed: closed".to_string())
    );
}

#[test]
fn a_completed_task_has_its_result() {
    let found = ResultRecord {
        result: Some(text_result("42")),
        ..record(FinishedStatus::Completed, None)
    };
    let step = backend().result_from_record("t1", Ok(Some(found)), &InFlight::new());
    let value = result_reply(step).expect("a result");
    assert_eq!(value["content"][0]["text"], Value::from("42"));
    assert_eq!(value["isError"], Value::from(false));
}

#[test]
fn a_completed_task_without_a_result_has_an_empty_one() {
    let value = payload_from_record("t1", record(FinishedStatus::Completed, None)).expect("a result");
    assert_eq!(value.to_string(), "{\"content\":[]}");
}

#[test]
fn a_task_that_did_not_complete_has_an_error() {
    assert_eq!(
        refused(payload_from_record("t1", record(FinishedStatus::Failed, Some("boom")))),
        (McpErrorKind::InternalError, "task failed: boom".to_string())
    );
    assert_eq!(
        refused(payload_from_record("t1", record(FinishedStatus::Failed, None))),
        (McpErrorKind::InternalError, "task failed: (no error message)".to_string())
    );
    assert_eq!(
        refused(payload_from_record("t1", record(FinishedStatus::Cancelled, None))),
        (McpErrorKind::InvalidRequest, "task was cancelled: t1".to_string())
    );
    assert_eq!(
        refused(payload_from_encoded(Err("no".to_string()))),
        (McpErrorKind::InternalError, "failed to serialize tool result: no".to_string())
    );
}

#[test]
fn a_result_is_awaited_while_the_task_is_under_way() {
    let waiting = backend().result_from_record("t1", Ok(None), &in_flight());
    assert!(matches!(waiting, ResultStep::CheckDeadline));
    match backend().result_from_record("t1", Ok(None), &InFlight::new()) {
        ResultStep::ReadJob(id) => assert_eq!(id, "t1"),
        _ => panic!("the queue is asked"),
    }
    let known = backend().result_from_job("t1", Ok(Some(job(JobStatus::Dead, 1, 5))));
    assert!(matches!(known, ResultStep::CheckDeadline));
    for (elapsed, pause) in [
        (Duration::ZERO, Duration::from_millis(250)),
        (Duration::from_millis(29_750), Duration::from_millis(250)),
        (Duration::from_millis(29_751), Duration::from_millis(249)),
        (Duration::from_nanos(29_999_999_999), Duration::from_nanos(1)),
    ] {
        match backend().result_at_deadline("t1", elapsed) {
            ResultStep::Sleep(interval) => assert_eq!(interval, pause),
            _ => panic!("there is time left"),
        }
    }
    assert_eq!(
        refused(result_reply(backend().result_at_deadline("t1", Duration::from_secs(30)))),
        (McpErrorKind::InvalidRequest, "task result not yet available: t1".to_string())
    );
}

#[test]
fn a_result_that_cannot_be_had_is_an_error() {
    assert_eq!(
        refused(result_reply(backend().result_from_job("t1", Ok(None)))),
        (McpErrorKind::ResourceNotFound, "task not found: t1".to_string())
    );
    assert_eq!(
        refused(result_reply(backend().result_from_job("t1", Err("closed".to_string())))),
        (McpErrorKind::InternalError, "queue lookup failed: closed".to_string())
    );
    let failed = Err(Error::Serde("EOF".to_string()));
    assert_eq!(
        refused(result_reply(backend().result_from_record("t1", failed, &in_flight()))),
        (McpErrorKind::InternalError, "result store read failed: serde: EOF".to_string())
    );
}

#[test]
fn a_cancellation_looks_at_the_job_first() {
    match backend().cancel_task("t1") {
        CancelStep::ReadJob(id) => assert_eq!(id, "t1"),
        _ => panic!("the queue is asked"),
    }
    let failed = backend().cancel_after_peek("t1", Err("closed".to_string()), &mut in_flight(), 1);
    assert_eq!(
        refused(cancel_reply(failed)),
        (McpErrorKind::InternalError, "queue lookup failed: closed".to_string())
    );
}

#[test]
fn a_waiting_task_is_recorded_as_cancelled() {
    for status in [JobStatus::Pending, JobStatus::Scheduled] {
        let mut tasks = in_flight();
        mark_in_flight(&mut tasks, "t1", "remembered", 3);
        let peeked = Ok(Some(job(status, 0, 5)));
        match backend().cancel_after_peek("t1", peeked, &mut tasks, NOW_MS) {
            CancelStep::WriteAndRemove { writes, task_id } => {
                assert_eq!(task_id, "t1");
                match &writes[..] {
                    [JobAction::PutResult(record), JobAction::RecordAudit(entry)] => {
                        assert_eq!(record.status, FinishedStatus::Cancelled);
                        assert_eq!(record.tool, "remembered");
                        assert_eq!(record.expires_at_ms, NOW_MS + DAY_MS);
                        assert_eq!(entry.event, AuditEvent::Cancelled);
                    }
                    _ => panic!("unexpected writes"),
                }
            }
            _ => panic!("no worker owns the record"),
        }
        assert_eq!(tasks.len(), 0);
    }
}

#[test]
fn a_waiting_task_that_is_not_remembered_is_recorded_by_its_header() {
    for (headers, expected) in [
        (vec![("tool".to_string(), "double".to_string())], "double"),
        (Vec::new(), ""),
    ] {
        let peeked = Ok(Some(JobRecord { headers, ..job(JobStatus::Pending, 0, 5) }));
        match backend().cancel_after_peek("t1", peeked, &mut InFlight::new(), NOW_MS) {
            CancelStep::WriteAndRemove { writes, .. } => match &writes[0] {
                JobAction::PutResult(record) => assert_eq!(record.tool, expected),
                _ => panic!("the record comes first"),
            },
            _ => panic!("no worker owns the record"),
        }
    }
}

#[test]
fn a_removed_job_is_answered_as_cancelled() {
    for outcome in [CancelOutcome::Removed, CancelOutcome::Requested, CancelOutcome::NotFound] {
        let task = backend().cancel_after_removal_at("t1", Ok(outcome), NOW).expect("cancelled");
        assert_eq!(task.status, TaskStatus::Cancelled);
        assert!(task.status_message.is_none());
        assert_eq!(task.created_at, NOW);
    }
    assert_eq!(
        refused(backend().cancel_after_removal("t1", Err("closed".to_string()))),
        (McpErrorKind::InternalError, "queue cancel failed: closed".to_string())
    );
}

#[test]
fn the_worker_of_a_claimed_job_is_asked_to_stop() {
    let mut tasks = in_flight();
    let peeked = Ok(Some(job(JobStatus::Claimed, 1, 5)));
    match backend().cancel_after_peek("t1", peeked, &mut tasks, NOW_MS) {
        CancelStep::RequestStop { task_id, tool } => {
            assert_eq!((task_id.as_str(), tool.as_str()), ("t1", "double"));
        }
        _ => panic!("the worker owns the record"),
    }
    assert_eq!(tasks.len(), 1);
    let requested = Ok(CancelOutcome::Requested);
    match backend().cancel_after_request_at("t1", "double", requested, NOW_MS, NOW) {
        CancelStep::RecordAndReply(entry, task) => {
            assert_eq!(entry.event, AuditEvent::Cancelled);
            assert_eq!(entry.at_ms, NOW_MS);
            assert_eq!(task.status, TaskStatus::Cancelled);
            assert_eq!(
                task.status_message.as_deref(),
                Some("cancellation requested; the tool may still be finishing")
            );
        }
        _ => panic!("the request is recorded"),
    }
    match backend().cancel_after_request("t1", "double", Ok(CancelOutcome::NotFound), NOW_MS) {
        CancelStep::ReadRecord(key) => assert_eq!(key.to_string(), "itest/results/t1.json"),
        _ => panic!("the record tells what became of the task"),
    }
    let failed = backend().cancel_after_request("t1", "double", Err("closed".to_string()), NOW_MS);
    assert_eq!(
        refused(cancel_reply(failed)),
        (McpErrorKind::InternalError, "queue cancel failed: closed".to_string())
    );
}

#[test]
fn a_finished_task_is_not_cancelled() {
    let done = Some(job(JobStatus::Done, 1, 5));
    let dead = Some(job(JobStatus::Dead, 1, 5));
    for peeked in [None, done, dead] {
        let step = backend().cancel_after_peek("t1", Ok(peeked), &mut in_flight(), NOW_MS);
        assert!(matches!(step, CancelStep::ReadRecord(_)));
    }
    let found = Ok(Some(record(FinishedStatus::Failed, Some("boom"))));
    assert_eq!(
        refused(backend().terminal_or_not_found("t1", found)),
        (
            McpErrorKind::InvalidRequest,
            "task is already in terminal state: Failed".to_string()
        )
    );
    assert_eq!(
        refused(backend().terminal_or_not_found("t1", Ok(None))),
        (McpErrorKind::ResourceNotFound, "task not found: t1".to_string())
    );
    assert_eq!(
        refused(backend().terminal_or_not_found("t1", Err(Error::ObjectStore("x".to_string())))),
        (
            McpErrorKind::InternalError,
            "result store read failed: object store: x".to_string()
        )
    );
}
