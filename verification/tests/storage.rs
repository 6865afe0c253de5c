//! Where things are kept, for how long, and what is read back.
use std::time::Duration;

use rmcp::model::{CallToolResult, Content};
use taquba::object_store::path::Path;
use taquba_mcp::audit::{entry, AuditEvent, AuditLog};
use taquba_mcp::error::Error;
use taquba_mcp::in_flight::{InFlight, InFlightInfo};
use taquba_mcp::pointer::{pointer_key, pointer_keys, read, TaskPointer};
use taquba_mcp::protocol::TaskStatus;
use taquba_mcp::result_store::{BlobRead, FinishedStatus, ListedBlob, ResultRecord, ResultStore};
use taquba_mcp::time::{cutoff_ms, expires_at_ms, ms_to_rfc3339, ttl_ms};

fn record(task_id: &str, expires_at_ms: u64) -> ResultRecord {
    ResultRecord {
        task_id: task_id.to_string(),
        tool: "double".to_string(),
        status: FinishedStatus::Completed,
        result: Some(CallToolResult::success(vec![Content::text("42")])),
        error: None,
        completed_at_ms: 5,
        expires_at_ms,
    }
}

fn ids(records: &[ResultRecord]) -> Vec<&str> {
    records.iter().map(|record| record.task_id.as_str()).collect()
}

#[test]
fn expiry_is_retention_after_now() {
    assert_eq!(expires_at_ms(1_000, Duration::from_millis(250)), 1_250);
    assert_eq!(expires_at_ms(1_000, Duration::from_secs(24 * 60 * 60)), 86_401_000);
    assert_eq!(expires_at_ms(1_000, Duration::from_nanos(1_999_999)), 1_001);
}

#[test]
fn expiry_stops_at_the_last_moment() {
    assert_eq!(expires_at_ms(u64::MAX - 1, Duration::from_millis(1)), u64::MAX);
    assert_eq!(expires_at_ms(u64::MAX - 1, Duration::from_millis(2)), u64::MAX);
    assert_eq!(expires_at_ms(u64::MAX, Duration::from_secs(1)), u64::MAX);
}

#[test]
fn a_retention_beyond_64_bits_is_cut() {
    // 2^64 milliseconds and one more.
    let retention = Duration::new(18_446_744_073_709_551, 617_000_000);
    assert_eq!(retention.as_millis(), 18_446_744_073_709_551_617);
    assert_eq!(expires_at_ms(1_000, retention), 1_001);
    assert_eq!(cutoff_ms(1_000, retention), 999);
    assert_eq!(ttl_ms(retention), None);
}

#[test]
fn ttl_is_the_retention_in_milliseconds() {
    assert_eq!(ttl_ms(Duration::from_secs(24 * 60 * 60)), Some(86_400_000));
    assert_eq!(ttl_ms(Duration::from_millis(u64::MAX)), Some(u64::MAX));
    assert_eq!(ttl_ms(Duration::MAX), None);
}

#[test]
fn cutoff_does_not_go_below_the_epoch() {
    assert_eq!(cutoff_ms(10_000, Duration::from_secs(3)), 7_000);
    assert_eq!(cutoff_ms(10_000, Duration::from_secs(11)), 0);
    assert_eq!(AuditLog::cutoff_ms(10_000, Duration::from_secs(10)), 0);
    assert_eq!(AuditLog::cutoff_ms(10_001, Duration::from_secs(10)), 1);
}

#[test]
fn timestamps_are_rfc_3339() {
    assert_eq!(ms_to_rfc3339(0, "now"), "1970-01-01T00:00:00+00:00");
    assert_eq!(ms_to_rfc3339(1_700_000_000_000, "now"), "2023-11-14T22:13:20+00:00");
    assert_eq!(ms_to_rfc3339(1_700_000_000_250, "now"), "2023-11-14T22:13:20.250+00:00");
}

#[test]
fn a_timestamp_out_of_range_falls_back_to_now() {
    assert_eq!(ms_to_rfc3339(i64::MAX as u64, "now"), "now");
    assert_eq!(ms_to_rfc3339(i64::MAX as u64 + 1, "now"), "now");
    assert_eq!(ms_to_rfc3339(u64::MAX, "now"), "now");
}

#[test]
fn records_lie_under_results() {
    let store = ResultStore::new(Path::from("itest"));
    assert_eq!(store.directory().to_string(), "itest/results");
    assert_eq!(store.key("01ABC").to_string(), "itest/results/01ABC.json");
    assert_ne!(store.key("01ABC").to_string(), store.key("01ABD").to_string());
    let bare = ResultStore::new(Path::from(""));
    assert_eq!(bare.key("01ABC").to_string(), "results/01ABC.json");
}

#[test]
fn an_id_that_is_no_segment_is_encoded() {
    let store = ResultStore::new(Path::from("itest"));
    assert_eq!(store.key("a/b").to_string(), "itest/results/a%2Fb.json");
    assert_eq!(store.key("../x").to_string(), "itest/results/..%2Fx.json");
    assert_eq!(store.key("a%2Fb").to_string(), "itest/results/a%252Fb.json");
    assert_eq!(store.key("\u{e9}~ !").to_string(), "itest/results/%C3%A9%7E !.json");
    assert_eq!(
        store.key("\\{^}%`]\">[<#|\r\n*?\u{7f}").to_string(),
        "itest/results/%5C%7B%5E%7D%25%60%5D%22%3E%5B%3C%23%7C%0D%0A%2A%3F%7F.json"
    );
}

#[test]
fn a_prefix_may_be_a_path() {
    let backend = |prefix: &str| {
        let builder = taquba_mcp::TaqubaTaskBackend::<(), u8>::builder().object_store(());
        builder.prefix(prefix.to_string()).build(0).expect("backend builds")
    };
    for prefix in ["a/b", "a/b/", "a/b//"] {
        let built = backend(prefix);
        assert_eq!(built.queue_path, "a/b/queue");
        assert_eq!(built.result_store.key("t1").to_string(), "a/b/results/t1.json");
        assert_eq!(built.audit_log.directory().to_string(), "a/b/audit");
    }
    assert_eq!(backend("//a//b").result_store.directory().to_string(), "a/b/results");
    assert_eq!(backend("./..").result_store.directory().to_string(), "%2E/%2E%2E/results");
    assert_eq!(backend("/").result_store.directory().to_string(), "results");
}

#[test]
fn entries_lie_under_audit() {
    let log = AuditLog::new(Path::from("itest"));
    assert_eq!(log.directory().to_string(), "itest/audit");
    assert_eq!(log.key(0).to_string(), "itest/audit/00000000000000000000000000.json");
    assert_eq!(log.key(31).to_string(), "itest/audit/0000000000000000000000000Z.json");
    assert_eq!(log.key(32).to_string(), "itest/audit/00000000000000000000000010.json");
    assert_eq!(log.key(u128::MAX).to_string(), "itest/audit/7ZZZZZZZZZZZZZZZZZZZZZZZZZ.json");
}

#[test]
fn entries_sort_by_time_in_a_listing() {
    let log = AuditLog::new(Path::from("itest"));
    let earlier = log.key(1u128 << 80).to_string();
    let later = log.key(2u128 << 80).to_string();
    assert!(earlier < later);
    let last_of_earlier = log.key((2u128 << 80) - 1).to_string();
    assert!(earlier < last_of_earlier && last_of_earlier < later);
}

#[test]
fn an_entry_is_kept_for_its_retention() {
    let log = AuditLog::new(Path::from("itest"));
    let key = log.record(1_700_000_000_000);
    assert!(!AuditLog::reap(&key, 1_700_000_000_000));
    assert!(AuditLog::reap(&key, 1_700_000_000_001));
    let retention = Duration::from_secs(60);
    let at = |now_ms: u64| AuditLog::reap(&key, AuditLog::cutoff_ms(now_ms, retention));
    assert!(!at(1_700_000_060_000));
    assert!(at(1_700_000_060_001));
}

#[test]
fn every_event_has_its_own_entry() {
    let log = AuditLog::new(Path::from("itest"));
    assert_ne!(log.record(7).to_string(), log.record(7).to_string());
}

#[test]
fn a_clock_beyond_48_bits_is_cut() {
    let log = AuditLog::new(Path::from("itest"));
    let key = log.record((1 << 48) + 5);
    assert!(!AuditLog::reap(&key, 5));
    assert!(AuditLog::reap(&key, 6));
}

#[test]
fn what_is_no_entry_is_left_alone() {
    let far = u64::MAX;
    assert!(!AuditLog::reap(&Path::from(""), far));
    assert!(!AuditLog::reap(&Path::from("itest/audit/readme.txt"), far));
    assert!(!AuditLog::reap(&Path::from("itest/audit/readme.json"), far));
    assert!(!AuditLog::reap(&Path::from("itest/audit/00000000000000000000000000"), far));
    // `U` is no digit.
    assert!(!AuditLog::reap(&Path::from("itest/audit/0000000000000000000000000U.json"), far));
    assert!(!AuditLog::reap(&Path::from("itest/audit/0000000000000000000000000.json"), far));
    assert!(AuditLog::reap(&Path::from("itest/audit/00000000000000000000000000.json"), far));
    assert!(AuditLog::reap(&Path::from("00000000000000000000000000.json"), far));
}

#[test]
fn lower_case_names_are_read_too() {
    // The first ten digits are the timestamp.
    assert!(!AuditLog::reap(&Path::from("audit/000000000a0000000000000000.json"), 10));
    assert!(AuditLog::reap(&Path::from("audit/000000000a0000000000000000.json"), 11));
    assert!(AuditLog::reap(&Path::from("audit/000000000A0000000000000000.json"), 11));
}

#[test]
fn an_entry_says_what_happened() {
    let built = entry(AuditEvent::Failed, "t1", "double", 9, Some("boom".to_string()));
    assert_eq!(built.event, AuditEvent::Failed);
    assert_eq!(built.task_id, "t1");
    assert_eq!(built.tool, "double");
    assert_eq!(built.at_ms, 9);
    assert_eq!(built.error.as_deref(), Some("boom"));
}

#[test]
fn a_missing_blob_is_no_record() {
    assert!(ResultStore::get(BlobRead::NotFound).expect("no failure").is_none());
    let found = ResultStore::get(BlobRead::Read(Ok(record("t1", 9)))).expect("no failure");
    assert_eq!(found.expect("a record").task_id, "t1");
}

#[test]
fn failures_of_a_read_are_told_apart() {
    let failed = ResultStore::get(BlobRead::Failed("timeout".to_string()));
    assert_eq!(failed.err().expect("a failure").text(), "object store: timeout");
    let unreadable = ResultStore::get(BlobRead::Read(Err("EOF".to_string())));
    assert_eq!(unreadable.err().expect("a failure").text(), "serde: EOF");
}

#[test]
fn a_listing_skips_what_it_cannot_read() {
    let blobs = vec![
        ListedBlob::Read(Ok(record("t1", 1))),
        ListedBlob::Read(Err("EOF".to_string())),
        ListedBlob::Read(Ok(record("t2", 2))),
    ];
    let listed = ResultStore::list(blobs).expect("no failure");
    assert_eq!(ids(&listed), vec!["t1", "t2"]);
    assert!(ResultStore::list(Vec::new()).expect("no failure").is_empty());
}

#[test]
fn a_listing_ends_with_its_first_failure() {
    let blobs = vec![
        ListedBlob::Read(Ok(record("t1", 1))),
        ListedBlob::Failed("first".to_string()),
        ListedBlob::Read(Ok(record("t2", 2))),
        ListedBlob::Failed("second".to_string()),
    ];
    let failure = ResultStore::list(blobs).err().expect("a failure");
    assert_eq!(failure.text(), "object store: first");
}

#[test]
fn the_reaper_takes_what_has_expired() {
    let records = vec![record("t1", 100), record("t2", 101), record("t3", 99)];
    let expired = ResultStore::reap(Ok(records), 100).expect("no failure");
    assert_eq!(expired, vec!["t1", "t3"]);
    let failed = ResultStore::reap(Err(Error::ObjectStore("gone".to_string())), 100);
    assert_eq!(failed.err().expect("a failure").text(), "object store: gone");
}

#[test]
fn only_what_was_deleted_was_swept() {
    let tasks = vec!["t1".to_string(), "t2".to_string(), "t3".to_string()];
    assert_eq!(ResultStore::swept(tasks, &vec![true, false, true]), vec!["t1", "t3"]);
}

#[test]
fn pointers_have_keys_of_their_own() {
    assert_eq!(pointer_key("01ABC"), b"mcp:task:01ABC".to_vec());
    assert_eq!(pointer_key(""), b"mcp:task:".to_vec());
    assert_eq!(pointer_key("\u{e9}"), vec![109, 99, 112, 58, 116, 97, 115, 107, 58, 0xc3, 0xa9]);
    assert_ne!(pointer_key("a"), pointer_key("b"));
    let keys = pointer_keys(&vec!["a".to_string(), "b".to_string()]);
    assert_eq!(keys, vec![b"mcp:task:a".to_vec(), b"mcp:task:b".to_vec()]);
}

#[test]
fn a_pointer_is_read_or_fails() {
    let pointer = TaskPointer {
        status: FinishedStatus::Cancelled,
        completed_at_ms: 3,
        expires_at_ms: 4,
    };
    let found = read(Ok(Some(Ok(pointer)))).expect("no failure").expect("a pointer");
    assert_eq!(found.status, FinishedStatus::Cancelled);
    assert_eq!((found.completed_at_ms, found.expires_at_ms), (3, 4));
    assert!(read(Ok(None)).expect("no failure").is_none());
    let garbled = read(Ok(Some(Err("EOF".to_string()))));
    assert_eq!(garbled.err().expect("a failure").text(), "serde: EOF");
    let failed = read(Err("closed".to_string()));
    assert_eq!(failed.err().expect("a failure").text(), "taquba: closed");
}

#[test]
fn errors_say_where_they_come_from() {
    assert_eq!(Error::Taquba("x".to_string()).text(), "taquba: x");
    assert_eq!(Error::ObjectStore("x".to_string()).text(), "object store: x");
    assert_eq!(Error::Configuration("x".to_string()).text(), "configuration: x");
    assert_eq!(Error::Serde("x".to_string()).text(), "serde: x");
}

#[test]
fn finished_tasks_are_reported_as_they_ended() {
    assert_eq!(TaskStatus::from(FinishedStatus::Completed), TaskStatus::Completed);
    assert_eq!(TaskStatus::from(FinishedStatus::Failed), TaskStatus::Failed);
    assert_eq!(TaskStatus::from(FinishedStatus::Cancelled), TaskStatus::Cancelled);
    assert_eq!(TaskStatus::Working.name(), "Working");
    assert_eq!(TaskStatus::InputRequired.name(), "InputRequired");
}

#[test]
fn the_index_remembers_and_forgets() {
    let info = |tool: &str, started_at_ms: u64| InFlightInfo {
        tool: tool.to_string(),
        started_at_ms,
        running: false,
    };
    let mut tasks = InFlight::new();
    assert_eq!(tasks.len(), 0);
    tasks.insert("t1".to_string(), info("double", 1));
    tasks.insert("t2".to_string(), info("triple", 2));
    tasks.insert("t1".to_string(), info("double", 3));
    assert_eq!(tasks.len(), 2);
    assert_eq!(tasks.get("t1").expect("known").started_at_ms, 3);
    assert!(tasks.contains_key("t2") && !tasks.contains_key("t3"));
    assert_eq!((tasks.task(0).0, tasks.task(0).1.started_at_ms), ("t1", 3));
    assert_eq!((tasks.task(1).0, tasks.task(1).1.started_at_ms), ("t2", 2));
    assert_eq!(tasks.task(1).1.message(), "queued");
    let copy = tasks.clone();
    assert!(tasks.remove("t3").is_none());
    assert_eq!(tasks.remove("t1").expect("known").tool, "double");
    assert!(tasks.get("t1").is_none());
    assert_eq!(tasks.len(), 1);
    assert_eq!(tasks.task(0).0, "t2");
    assert_eq!(copy.len(), 2);
    assert_eq!((copy.task(0).0, copy.task(0).1.tool.as_str()), ("t1", "double"));
}
