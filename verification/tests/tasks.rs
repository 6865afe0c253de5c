//! Tasks from submission to result, on a real queue with an in-memory store.
use std::collections::BTreeMap;
use std::future::Future;
use std::sync::{Arc, Mutex};
use std::time::{Duration, Instant};

use rmcp::model::{CallToolRequestParams, CallToolResult, Content, ErrorData};
use serde_json::Value;
use taquba::object_store::memory::InMemory;
use taquba::object_store::path::Path;
use taquba::object_store::ObjectStore;
use taquba::{AckEffects, Clock, EnqueueOptions, MockClock, OpenOptions, Queue, SystemClock};
use taquba_mcp::audit::AuditEntry;
use taquba_mcp::backend::TaqubaTaskBackend;
use taquba_mcp::cancel::CancelStep;
use taquba_mcp::in_flight::InFlight;
use taquba_mcp::info::InfoStep;
use taquba_mcp::outcome::ResultStep;
use taquba_mcp::pointer::{self, TaskPointer};
use taquba_mcp::protocol::{McpError, Task, TaskStatus};
use taquba_mcp::queue::{CancelOutcome, JobRecord, JobStatus};
use taquba_mcp::result_store::{BlobRead, FinishedStatus, ListedBlob, ResultRecord, ResultStore};
use taquba_mcp::worker::{
    pointer_effects, pointers_to_drop, settle_job, start_job, JobAction, JobStart, RetryPolicy,
};
use tokio_util::sync::CancellationToken;

type Store = Arc<dyn ObjectStore>;
type Time = Arc<dyn Clock>;

fn run<F: Future>(body: F) -> F::Output {
    let runtime = tokio::runtime::Builder::new_multi_thread()
        .worker_threads(2)
        .enable_all()
        .build()
        .expect("runtime builds");
    runtime.block_on(body)
}

fn plain_job(job: &taquba::JobRecord) -> JobRecord {
    JobRecord {
        id: job.id.clone(),
        queue: job.queue.clone(),
        payload: job.payload.clone(),
        headers: job.headers.clone().into_iter().collect(),
        status: match job.status {
            taquba::JobStatus::Pending => JobStatus::Pending,
            taquba::JobStatus::Scheduled => JobStatus::Scheduled,
            taquba::JobStatus::Claimed => JobStatus::Claimed,
            taquba::JobStatus::Done => JobStatus::Done,
            taquba::JobStatus::Dead => JobStatus::Dead,
        },
        attempts: job.attempts,
        max_attempts: job.max_attempts,
        enqueued_at: job.enqueued_at,
    }
}

fn encode_pointer(pointer: TaskPointer) -> Result<Vec<u8>, String> {
    let status = match pointer.status {
        FinishedStatus::Completed => "completed",
        FinishedStatus::Failed => "failed",
        FinishedStatus::Cancelled => "cancelled",
    };
    Ok(format!("{} {} {}", status, pointer.completed_at_ms, pointer.expires_at_ms).into_bytes())
}

fn decode_pointer(bytes: &[u8]) -> Result<TaskPointer, String> {
    let text = String::from_utf8(bytes.to_vec()).map_err(|e| e.to_string())?;
    let parts: Vec<&str> = text.split(' ').collect();
    Ok(TaskPointer {
        status: match parts[0] {
            "completed" => FinishedStatus::Completed,
            "cancelled" => FinishedStatus::Cancelled,
            _ => FinishedStatus::Failed,
        },
        completed_at_ms: parts[1].parse().map_err(|_| "no time".to_string())?,
        expires_at_ms: parts[2].parse().map_err(|_| "no expiry".to_string())?,
    })
}

/// The tools of the server.
async fn call_tool(
    request: CallToolRequestParams,
    ct: CancellationToken,
) -> Result<CallToolResult, ErrorData> {
    let arguments = request.arguments.clone().unwrap_or_default();
    match request.name.as_ref() {
        "double" => {
            let n = arguments["n"].as_i64().expect("n is a number");
            Ok(CallToolResult::success(vec![Content::text((n * 2).to_string())]))
        }
        "cooperative_sleep" => {
            let ms = arguments["ms"].as_u64().expect("ms is a number");
            match tokio::time::timeout(Duration::from_millis(ms), ct.cancelled()).await {
                Ok(()) => Err(ErrorData::internal_error("cancelled by client", None)),
                Err(_) => Ok(CallToolResult::success(vec![Content::text("slept")])),
            }
        }
        "stubborn_sleep" => {
            let ms = arguments["ms"].as_u64().expect("ms is a number");
            tokio::time::sleep(Duration::from_millis(ms)).await;
            Ok(CallToolResult::success(vec![Content::text("slept anyway")]))
        }
        other => Err(ErrorData::internal_error(format!("{} is broken", other), None)),
    }
}

struct Server {
    backend: TaqubaTaskBackend<Store, Time>,
    queue: Queue,
    records: Mutex<BTreeMap<String, ResultRecord>>,
    audit: Mutex<Vec<(Path, AuditEntry)>>,
    in_flight: Mutex<InFlight>,
}

/// Drives a server the way its transport does.
struct Harness {
    server: Arc<Server>,
    workers: Vec<tokio::task::JoinHandle<()>>,
}

impl Server {
    fn now_ms(&self) -> u64 {
        self.backend.clock.now_ms()
    }

    fn put(&self, record: ResultRecord) {
        let key = self.backend.result_store.key(&record.task_id);
        self.records.lock().unwrap().insert(key.to_string(), record);
    }

    fn record(&self, entry: AuditEntry) {
        let key = self.backend.audit_log.record(self.now_ms());
        self.audit.lock().unwrap().push((key, entry));
    }

    fn read(&self, key: &Path) -> Result<Option<ResultRecord>, taquba_mcp::Error> {
        let found = self.records.lock().unwrap().get(&key.to_string()).cloned();
        ResultStore::get(match found {
            Some(record) => BlobRead::Read(Ok(record)),
            None => BlobRead::NotFound,
        })
    }

    fn list(&self) -> Result<Vec<ResultRecord>, taquba_mcp::Error> {
        let records = self.records.lock().unwrap();
        let blobs = records.values().cloned().map(|record| ListedBlob::Read(Ok(record)));
        ResultStore::list(blobs.collect())
    }

    async fn job(&self, task_id: &str) -> Result<Option<JobRecord>, String> {
        let found = self.queue.get_job(task_id).await.map_err(|e| e.to_string())?;
        Ok(found.as_ref().map(plain_job))
    }

    async fn cancel_job(&self, task_id: &str) -> Result<CancelOutcome, String> {
        match self.queue.cancel(task_id).await {
            Ok(taquba::CancelOutcome::Removed) => Ok(CancelOutcome::Removed),
            Ok(taquba::CancelOutcome::Requested) => Ok(CancelOutcome::Requested),
            Ok(taquba::CancelOutcome::NotFound) => Ok(CancelOutcome::NotFound),
            Err(e) => Err(e.to_string()),
        }
    }

    async fn carry_out(&self, job: taquba::JobRecord, actions: Vec<JobAction>) {
        for action in actions {
            match action {
                JobAction::PutResult(record) => self.put(record),
                JobAction::RecordAudit(entry) => self.record(entry),
                JobAction::Ack(pointer) => {
                    let writes = pointer_effects(&job.id, encode_pointer(pointer));
                    let effects = AckEffects {
                        kv_writes: writes.into_iter().collect(),
                        ..AckEffects::default()
                    };
                    self.queue.ack_with(&job, effects).await.expect("ack");
                }
                JobAction::DeadLetter(reason) => {
                    self.queue.dead_letter(job.clone(), &reason).await.expect("dead letter");
                }
                JobAction::Nack(reason) => {
                    self.queue.nack(job.clone(), &reason).await.expect("nack");
                }
            }
        }
    }

    async fn process(&self, job: taquba::JobRecord) {
        let plain = plain_job(&job);
        let retention = self.backend.config().result_retention;
        let start = start_job(
            &plain,
            &mut self.in_flight.lock().unwrap(),
            self.now_ms(),
            retention,
        );
        let request = match start {
            JobStart::Reject(actions) => return self.carry_out(job, actions).await,
            JobStart::Run { started, request } => {
                self.record(started);
                request
            }
        };
        let token = job.cancel_token.clone().expect("a claimed job has a token");
        let outcome = call_tool(request, token.clone()).await;
        let actions = settle_job(
            &plain,
            outcome,
            token.is_cancelled(),
            &mut self.in_flight.lock().unwrap(),
            self.now_ms(),
            retention,
        );
        self.carry_out(job, actions).await;
    }

    /// Claims and processes one job of a tool, if there is one.
    async fn work_once(&self, tool: &str) -> bool {
        let lease = self.queue.queue_lease_duration(tool);
        match self.queue.claim(tool, lease).await.expect("claim") {
            Some(job) => {
                self.process(job).await;
                true
            }
            None => false,
        }
    }
}

impl Harness {
    async fn build(workers: bool, clock: Option<Time>, policy: Option<RetryPolicy>) -> Harness {
        let store: Store = Arc::new(InMemory::new());
        let mut builder = TaqubaTaskBackend::<Store, Time>::builder()
            .object_store(store)
            .prefix("itest".to_string());
        if let Some(clock) = clock {
            builder = builder.clock(clock);
        }
        if let Some(policy) = policy {
            builder = builder.default_retry_policy(policy);
        }
        let backend = builder.build(Arc::new(SystemClock)).expect("backend builds");
        let queue = Queue::open_with_options(
            backend.object_store.clone(),
            &backend.queue_path,
            OpenOptions {
                default_queue_config: taquba::QueueConfig {
                    max_attempts: backend.queue_config.max_attempts,
                    retry_backoff_base: backend.queue_config.retry_backoff_base,
                    retry_backoff_max: backend.queue_config.retry_backoff_max,
                    default_priority: backend.queue_config.default_priority,
                    ..taquba::QueueConfig::default()
                },
                clock: backend.clock.clone(),
                ..OpenOptions::default()
            },
        )
        .await
        .expect("queue opens");
        let server = Arc::new(Server {
            backend,
            queue,
            records: Mutex::new(BTreeMap::new()),
            audit: Mutex::new(Vec::new()),
            in_flight: Mutex::new(InFlight::new()),
        });
        let mut handles = Vec::new();
        if workers {
            for tool in ["double", "cooperative_sleep", "stubborn_sleep"] {
                let server = server.clone();
                handles.push(tokio::spawn(async move {
                    loop {
                        if !server.work_once(tool).await {
                            tokio::time::sleep(Duration::from_millis(20)).await;
                        }
                    }
                }));
            }
        }
        Harness { server, workers: handles }
    }

    async fn enqueue(&self, tool: &str, name: &str, value: u64) -> String {
        let mut arguments = serde_json::Map::new();
        arguments.insert(name.to_string(), Value::from(value));
        let request = CallToolRequestParams::new(tool.to_string()).with_arguments(arguments);
        let server = &self.server;
        let job = server.backend.enqueue_task(&request).expect("the request is encoded");
        let options = EnqueueOptions {
            headers: job.headers.clone().into_iter().collect(),
            ..EnqueueOptions::default()
        };
        let reply = server.queue.enqueue_with(&job.queue, job.payload, options).await;
        let submission = server
            .backend
            .enqueued(
                &job.queue,
                reply.map_err(|e| e.to_string()),
                &mut server.in_flight.lock().unwrap(),
                server.now_ms(),
            )
            .expect("enqueue_task succeeds");
        server.record(submission.submitted);
        submission.task.task_id
    }

    async fn task_info(&self, task_id: &str) -> Result<Task, McpError> {
        let server = &self.server;
        let mut step = server.backend.get_task_info(task_id);
        loop {
            step = match step {
                InfoStep::ReadPointer(key) => {
                    let fetched = match server.queue.kv_get(&key).await {
                        Ok(found) => Ok(found.map(|bytes| decode_pointer(&bytes))),
                        Err(e) => Err(e.to_string()),
                    };
                    server.backend.info_from_pointer(
                        task_id,
                        pointer::read(fetched),
                        &server.in_flight.lock().unwrap(),
                    )
                }
                InfoStep::ReadJob(task_id) => {
                    let read = server.job(&task_id).await;
                    server.backend.info_from_job(&task_id, read)
                }
                InfoStep::ReadRecord(key) => {
                    return server.backend.info_from_record(task_id, server.read(&key));
                }
                InfoStep::Reply(reply) => return reply,
            }
        }
    }

    async fn task_status(&self, task_id: &str) -> Task {
        self.task_info(task_id).await.expect("get_task_info succeeds")
    }

    /// Polls until the task is being actively run by a worker.
    async fn wait_until_running(&self, task_id: &str) {
        for _ in 0..400 {
            if let Ok(info) = self.task_info(task_id).await {
                if info.status_message.as_deref() == Some("running") {
                    return;
                }
            }
            tokio::time::sleep(Duration::from_millis(10)).await;
        }
        panic!("task {} never reached the running state", task_id);
    }

    async fn get_result(&self, task_id: &str) -> Result<Value, McpError> {
        let server = &self.server;
        let begun = Instant::now();
        let mut step = server.backend.get_task_result(task_id);
        loop {
            step = match step {
                ResultStep::Wait { task_id, max_wait } => {
                    let waited = server.queue.wait_for_completion(&task_id, max_wait).await;
                    let waited = waited.map(|_| ()).map_err(|e| e.to_string());
                    server.backend.result_after_wait(&task_id, waited)
                }
                ResultStep::ReadRecord(key) => server.backend.result_from_record(
                    task_id,
                    server.read(&key),
                    &server.in_flight.lock().unwrap(),
                ),
                ResultStep::ReadJob(task_id) => {
                    let read = server.job(&task_id).await;
                    server.backend.result_from_job(&task_id, read)
                }
                ResultStep::CheckDeadline => server
                    .backend
                    .result_at_deadline(task_id, begun.elapsed()),
                ResultStep::Sleep(interval) => {
                    tokio::time::sleep(interval).await;
                    server.backend.result_after_wait(task_id, Ok(()))
                }
                ResultStep::Reply(reply) => return reply,
            }
        }
    }

    async fn cancel(&self, task_id: &str) -> Result<Task, McpError> {
        let server = &self.server;
        let mut step = server.backend.cancel_task(task_id);
        loop {
            step = match step {
                CancelStep::ReadJob(task_id) => {
                    let read = server.job(&task_id).await;
                    server.backend.cancel_after_peek(
                        &task_id,
                        read,
                        &mut server.in_flight.lock().unwrap(),
                        server.now_ms(),
                    )
                }
                CancelStep::WriteAndRemove { writes, task_id } => {
                    for write in writes {
                        match write {
                            JobAction::PutResult(record) => server.put(record),
                            JobAction::RecordAudit(entry) => server.record(entry),
                            _ => panic!("a cancellation only writes"),
                        }
                    }
                    let outcome = server.cancel_job(&task_id).await;
                    return server.backend.cancel_after_removal(&task_id, outcome);
                }
                CancelStep::RequestStop { task_id, tool } => {
                    let outcome = server.cancel_job(&task_id).await;
                    server
                        .backend
                        .cancel_after_request(&task_id, &tool, outcome, server.now_ms())
                }
                CancelStep::RecordAndReply(entry, task) => {
                    server.record(entry);
                    return Ok(task);
                }
                CancelStep::ReadRecord(key) => {
                    return server.backend.terminal_or_not_found(task_id, server.read(&key));
                }
                CancelStep::Reply(reply) => return reply,
            }
        }
    }

    /// One sweep of the result store, with the pointers of what it swept.
    async fn reap(&self) -> Result<Vec<String>, taquba_mcp::Error> {
        let server = &self.server;
        let expired = ResultStore::reap(server.list(), server.now_ms())?;
        let mut deleted = Vec::new();
        for task_id in &expired {
            let key = server.backend.result_store.key(task_id).to_string();
            deleted.push(server.records.lock().unwrap().remove(&key).is_some());
        }
        let swept = Ok(ResultStore::swept(expired, &deleted));
        for key in pointers_to_drop(&swept) {
            server.queue.kv_delete(&key).await.expect("kv_delete");
        }
        swept
    }

    async fn shutdown(self) {
        for worker in self.workers {
            worker.abort();
        }
    }
}

/// A task runs on the worker pool, and its result is what the tool returned.
#[test]
fn task_runs_and_wait_for_completion_returns_the_result() {
    run(async {
        let h = Harness::build(true, None, None).await;
        let task_id = h.enqueue("double", "n", 21).await;

        let payload = h.get_result(&task_id).await.expect("get_task_result succeeds");
        let rendered = serde_json::to_string(&payload).expect("payload serializes");
        assert!(
            rendered.contains("42"),
            "expected the doubled value in the payload, got: {}",
            rendered
        );

        h.shutdown().await;
    });
}

/// A pending job is removed and a terminal record is left.
#[test]
fn cancel_pending_task_removes_it_and_records_cancelled() {
    run(async {
        // No worker pool, so the enqueued job stays `Pending`.
        let h = Harness::build(false, None, None).await;
        let task_id = h.enqueue("double", "n", 1).await;

        assert_eq!(
            h.cancel(&task_id).await.expect("cancel_task succeeds").status,
            TaskStatus::Cancelled,
        );
        // The Cancelled record is visible via get_task_info.
        assert_eq!(h.task_status(&task_id).await.status, TaskStatus::Cancelled);
        assert!(h.server.job(&task_id).await.expect("lookup").is_none());

        h.shutdown().await;
    });
}

/// The worker of a claimed job is asked to stop; the tool short-circuits and the
/// task is cancelled without a retry.
#[test]
fn cancel_claimed_task_is_cooperative_and_tool_short_circuits() {
    run(async {
        let h = Harness::build(true, None, None).await;
        // A long sleep so the worker is mid-execution when we cancel.
        let task_id = h.enqueue("cooperative_sleep", "ms", 60_000).await;
        h.wait_until_running(&task_id).await;

        assert_eq!(
            h.cancel(&task_id).await.expect("cancel_task succeeds").status,
            TaskStatus::Cancelled,
        );

        let err = h
            .get_result(&task_id)
            .await
            .expect_err("a cancelled task surfaces as an error from get_task_result");
        assert!(
            err.message.contains("cancelled"),
            "expected a cancellation error, got: {}",
            err.message,
        );
        assert_eq!(h.task_status(&task_id).await.status, TaskStatus::Cancelled);

        h.shutdown().await;
    });
}

/// A tool that ignores the cancellation runs to completion, and its result is
/// what the client gets, even though the cancellation was acknowledged.
#[test]
fn cancellation_is_cooperative_stubborn_tool_still_completes() {
    run(async {
        let h = Harness::build(true, None, None).await;
        let task_id = h.enqueue("stubborn_sleep", "ms", 2_000).await;
        h.wait_until_running(&task_id).await;

        assert_eq!(
            h.cancel(&task_id).await.expect("cancel_task succeeds").status,
            TaskStatus::Cancelled,
        );

        let payload = h
            .get_result(&task_id)
            .await
            .expect("the stubborn tool completes despite the cancel");
        let rendered = serde_json::to_string(&payload).expect("payload serializes");
        assert!(
            rendered.contains("slept anyway"),
            "expected the completion value, got: {}",
            rendered
        );

        h.shutdown().await;
    });
}

/// Once the clock has passed the retention, the reaper deletes the record.
#[test]
fn result_blob_expires_and_reaper_sweeps_it() {
    run(async {
        let clock = MockClock::new(1_700_000_000_000);
        let h = Harness::build(true, Some(Arc::new(clock.clone())), None).await;
        let task_id = h.enqueue("double", "n", 7).await;
        let key = h.server.backend.result_store.key(&task_id);

        let _ = h.get_result(&task_id).await.expect("task completes");
        assert!(
            h.server.read(&key).expect("result store get succeeds").is_some(),
            "result blob should be present immediately after completion",
        );
        assert_eq!(h.reap().await.expect("reap succeeds").len(), 0);

        // Advance virtual time past the default 24h retention window.
        clock.advance(Duration::from_secs(25 * 60 * 60));

        let deleted = h.reap().await.expect("reap succeeds");
        assert!(deleted.len() >= 1, "reaper should have swept the expired blob");
        assert_eq!(deleted, vec![task_id.clone()]);
        assert!(
            h.server.read(&key).expect("result store get succeeds").is_none(),
            "result blob should be gone after the sweep",
        );

        h.shutdown().await;
    });
}

/// An unknown task cannot be cancelled.
#[test]
fn cancel_unknown_task_is_not_found() {
    run(async {
        let h = Harness::build(false, None, None).await;
        let err = h
            .cancel("no-such-task")
            .await
            .expect_err("cancelling an unknown task errors");
        assert!(
            err.message.contains("not found"),
            "expected a not-found error, got: {}",
            err.message,
        );
        h.shutdown().await;
    });
}

/// A policy of one attempt dead-letters the first failure.
#[test]
fn one_attempt_is_not_retried() {
    run(async {
        let h = Harness::build(false, None, Some(RetryPolicy::never())).await;
        let task_id = h.enqueue("broken", "n", 1).await;
        assert!(h.server.work_once("broken").await);
        assert!(!h.server.work_once("broken").await);

        let task = h.task_status(&task_id).await;
        assert_eq!(task.status, TaskStatus::Failed);
        assert_eq!(task.status_message.as_deref(), Some("-32603: broken is broken"));
        let err = h.get_result(&task_id).await.expect_err("the task failed");
        assert_eq!(err.message, "task failed: -32603: broken is broken");
        let err = h.cancel(&task_id).await.expect_err("the task has ended");
        assert_eq!(err.message, "task is already in terminal state: Failed");
        h.shutdown().await;
    });
}

/// A failure with attempts left goes back to the queue.
#[test]
fn a_failed_attempt_is_retried_until_the_last() {
    run(async {
        let policy = RetryPolicy::never().max_attempts(3);
        let h = Harness::build(false, None, Some(policy)).await;
        let task_id = h.enqueue("broken", "n", 1).await;

        for _ in 0..2 {
            assert!(h.server.work_once("broken").await);
            let task = h.task_status(&task_id).await;
            assert_eq!(task.status, TaskStatus::Working);
            assert_eq!(task.status_message.as_deref(), Some("queued"));
        }

        assert!(h.server.work_once("broken").await);
        assert_eq!(h.task_status(&task_id).await.status, TaskStatus::Failed);
        assert!(!h.server.work_once("broken").await);
        h.shutdown().await;
    });
}

/// A task is queued until a worker runs it.
#[test]
fn a_waiting_task_is_queued_and_a_claimed_one_running() {
    run(async {
        let h = Harness::build(false, None, None).await;
        let server = &h.server;
        let task_id = h.enqueue("double", "n", 4).await;
        let task = h.task_status(&task_id).await;
        assert_eq!(task.status, TaskStatus::Working);
        assert_eq!(task.status_message.as_deref(), Some("queued"));

        let lease = server.queue.queue_lease_duration("double");
        let job = server.queue.claim("double", lease).await.expect("claim").expect("a job");
        let start = start_job(
            &plain_job(&job),
            &mut server.in_flight.lock().unwrap(),
            server.now_ms(),
            server.backend.config().result_retention,
        );
        assert!(matches!(start, JobStart::Run { .. }));
        let task = h.task_status(&task_id).await;
        assert_eq!(task.status_message.as_deref(), Some("running"));
        h.shutdown().await;
    });
}

/// A job without a request fails its task, although the task was in flight.
#[test]
fn a_rejected_task_is_reported_failed() {
    run(async {
        let h = Harness::build(false, None, None).await;
        let server = &h.server;
        let reply = server.queue.enqueue("double", b"nonsense".to_vec()).await;
        let submission = server
            .backend
            .enqueued(
                "double",
                reply.map_err(|e| e.to_string()),
                &mut server.in_flight.lock().unwrap(),
                server.now_ms(),
            )
            .expect("accepted");
        let task_id = submission.task.task_id;
        assert_eq!(h.task_status(&task_id).await.status, TaskStatus::Working);

        assert!(server.work_once("double").await);
        let task = h.task_status(&task_id).await;
        assert_eq!(task.status, TaskStatus::Failed);
        assert_eq!(
            task.status_message.as_deref(),
            Some("payload deserialization failed: expected ident at line 1 column 2")
        );
        h.shutdown().await;
    });
}

/// A task that waits in the queue is known without the index.
#[test]
fn a_queued_task_is_known_after_a_restart() {
    run(async {
        let h = Harness::build(false, None, None).await;
        let task_id = h.enqueue("double", "n", 4).await;
        *h.server.in_flight.lock().unwrap() = InFlight::new();

        let task = h.task_status(&task_id).await;
        assert_eq!(task.status, TaskStatus::Working);
        assert_eq!(task.status_message.as_deref(), Some("queued"));

        assert!(h.server.work_once("double").await);
        assert_eq!(h.task_status(&task_id).await.status, TaskStatus::Completed);
        h.shutdown().await;
    });
}

/// The record of a task whose job is still claimed does not make it finished.
#[test]
fn a_claimed_task_is_not_reported_finished() {
    run(async {
        let h = Harness::build(false, None, None).await;
        let server = &h.server;
        let task_id = h.enqueue("double", "n", 4).await;
        let lease = server.queue.queue_lease_duration("double");
        let job = server.queue.claim("double", lease).await.expect("claim").expect("a job");
        let actions = settle_job(
            &plain_job(&job),
            Ok(CallToolResult::success(vec![Content::text("8")])),
            false,
            &mut server.in_flight.lock().unwrap(),
            server.now_ms(),
            server.backend.config().result_retention,
        );
        for action in actions {
            assert_eq!(h.task_status(&task_id).await.status, TaskStatus::Working);
            server.carry_out(job.clone(), vec![action]).await;
        }
        assert_eq!(h.task_status(&task_id).await.status, TaskStatus::Completed);

        // A stale entry does not mask the outcome.
        taquba_mcp::worker::mark_in_flight(
            &mut server.in_flight.lock().unwrap(),
            &task_id,
            "double",
            server.now_ms(),
        );
        assert_eq!(h.task_status(&task_id).await.status, TaskStatus::Completed);
        h.shutdown().await;
    });
}

/// A swept task is gone for good: its pointer went with its record.
#[test]
fn a_swept_task_is_not_found() {
    run(async {
        let clock = MockClock::new(1_700_000_000_000);
        let h = Harness::build(false, Some(Arc::new(clock.clone())), None).await;
        let task_id = h.enqueue("double", "n", 7).await;
        assert!(h.server.work_once("double").await);
        let task = h.task_status(&task_id).await;
        assert_eq!(task.status, TaskStatus::Completed);
        assert_eq!(task.ttl, Some(86_400_000));
        assert_eq!(task.created_at, "2023-11-14T22:13:20+00:00");

        clock.advance(Duration::from_millis(86_399_999));
        assert!(h.reap().await.expect("reap").is_empty());
        clock.advance(Duration::from_millis(1));
        assert_eq!(h.reap().await.expect("reap"), vec![task_id.clone()]);

        let err = h.task_info(&task_id).await.expect_err("the task is gone");
        assert_eq!(err.message, format!("task not found: {}", task_id));
        let err = h.get_result(&task_id).await.expect_err("the task is gone");
        assert_eq!(err.message, format!("task not found: {}", task_id));
        h.shutdown().await;
    });
}

/// The life of a task is in the audit log, under the time of the clock.
#[test]
fn the_life_of_a_task_is_audited() {
    run(async {
        let clock = MockClock::new(1_700_000_000_000);
        let h = Harness::build(false, Some(Arc::new(clock.clone())), None).await;
        let task_id = h.enqueue("double", "n", 7).await;
        assert!(h.server.work_once("double").await);
        let audit = h.server.audit.lock().unwrap();
        let events: Vec<String> = audit
            .iter()
            .map(|(_, entry)| format!("{:?} {}", entry.event, entry.tool))
            .collect();
        assert_eq!(events, vec!["Submitted double", "Started double", "Completed double"]);
        for (key, entry) in audit.iter() {
            assert_eq!(entry.task_id, task_id);
            assert_eq!(entry.at_ms, 1_700_000_000_000);
            assert!(key.to_string().starts_with("itest/audit/"));
            assert!(!taquba_mcp::audit::AuditLog::reap(key, 1_700_000_000_000));
            assert!(taquba_mcp::audit::AuditLog::reap(key, 1_700_000_000_001));
        }
    });
}

/// A list holds what runs and what has ended.
#[test]
fn a_list_holds_the_tasks_of_the_server() {
    run(async {
        let h = Harness::build(false, None, None).await;
        let first = h.enqueue("double", "n", 1).await;
        assert!(h.server.work_once("double").await);
        let second = h.enqueue("double", "n", 2).await;
        let listed = h
            .server
            .backend
            .list_tasks(&h.server.in_flight.lock().unwrap(), h.server.list())
            .expect("listed");
        let told: Vec<(String, TaskStatus)> =
            listed.into_iter().map(|task| (task.task_id, task.status)).collect();
        assert_eq!(
            told,
            vec![(second, TaskStatus::Working), (first, TaskStatus::Completed)]
        );
        h.shutdown().await;
    });
}
