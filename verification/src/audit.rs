//! Persistent audit log of task lifecycle events, kept in the object store.
//!
//! On-store layout:
//!
//! ```text
//! <prefix>/audit/<ulid>.json
//! ```
//!
//! Each event gets its own ULID. ULIDs are lexicographically sortable by
//! creation time, so a listing of the prefix returns events oldest-first and
//! the reaper decides retention by reading the timestamp out of the key; no
//! blob needs to be fetched.
use crate::location;
use crate::stamp;
use crate::text;
use crate::time;
use std::time::Duration;
use taquba::object_store::path::Path;
use vstd::prelude::*;

verus! {

/// Lifecycle event recorded into the audit log.
#[derive(Debug, Clone, Copy, PartialEq, Eq, Structural)]
pub enum AuditEvent {
    /// The task was enqueued.
    Submitted,
    /// A worker began to run it.
    Started,
    /// It completed.
    Completed,
    /// It, or one attempt at it, failed.
    Failed,
    /// It was cancelled, or its cancellation was asked for.
    Cancelled,
}

/// One audit log entry.
#[derive(Debug, Clone)]
pub struct AuditEntry {
    /// What happened.
    pub event: AuditEvent,
    /// The task that it happened to.
    pub task_id: String,
    /// The tool that the task calls.
    pub tool: String,
    /// When it happened, in milliseconds since the epoch.
    pub at_ms: u64,
    /// What went wrong, for a failure.
    pub error: Option<String>,
}

/// The contents of an [`AuditEntry`].
pub struct AuditEntryView {
    /// What happened.
    pub event: AuditEvent,
    /// The task that it happened to.
    pub task_id: Seq<char>,
    /// The tool that the task calls.
    pub tool: Seq<char>,
    /// When it happened.
    pub at_ms: u64,
    /// What went wrong.
    pub error: Option<Seq<char>>,
}

impl View for AuditEntry {
    type V = AuditEntryView;

    open spec fn view(&self) -> AuditEntryView {
        AuditEntryView {
            event: self.event,
            task_id: self.task_id@,
            tool: self.tool@,
            at_ms: self.at_ms,
            error: text::text_of(self.error),
        }
    }
}

/// The directory that the entries lie in.
pub open spec fn audit_path(prefix: Seq<char>) -> Seq<char> {
    location::child_path(prefix, "audit"@)
}

/// Where the entry with the given ULID lies.
pub open spec fn entry_path(prefix: Seq<char>, ulid: u128) -> Seq<char> {
    location::child_path(audit_path(prefix), stamp::ulid_text(ulid) + ".json"@)
}

/// The ULID that a location in the audit log carries: what its file name reads
/// as before `.json`.
pub open spec fn entry_ulid(location: Seq<char>) -> Option<u128> {
    let name = location::last_segment(location);
    if location.len() > 0 && ".json"@.is_suffix_of(name) {
        stamp::ulid_value(name.take(name.len() - ".json"@.len()))
    } else {
        None
    }
}

/// Whether a location holds an entry that was created before `cutoff_ms`.
pub open spec fn is_outdated(location: Seq<char>, cutoff_ms: u64) -> bool {
    match entry_ulid(location) {
        Some(ulid) => stamp::ulid_millis(ulid) < cutoff_ms,
        None => false,
    }
}

/// Builds an entry.
pub fn entry(
    event: AuditEvent,
    task_id: &str,
    tool: &str,
    at_ms: u64,
    error: Option<String>,
) -> (entry: AuditEntry)
    ensures
        entry@ == (AuditEntryView {
            event,
            task_id: task_id@,
            tool: tool@,
            at_ms,
            error: text::text_of(error),
        }),
{
    AuditEntry { event, task_id: task_id.to_owned(), tool: tool.to_owned(), at_ms, error }
}

/// The audit log.
pub struct AuditLog {
    /// The path that everything of the backend lies under.
    pub prefix: Path,
}

impl AuditLog {
    /// The log under `prefix`.
    pub fn new(prefix: Path) -> (log: AuditLog)
        ensures
            log.prefix == prefix,
    {
        AuditLog { prefix }
    }

    /// The directory that the entries lie in.
    pub fn directory(&self) -> (directory: Path)
        ensures
            location::path_text(directory) == audit_path(location::path_text(self.prefix)),
    {
        location::child(&self.prefix, "audit")
    }

    /// Where the entry with the given ULID lies.
    pub fn key(&self, ulid: u128) -> (key: Path)
        ensures
            location::path_text(key) == entry_path(location::path_text(self.prefix), ulid),
    {
        let directory: Path = self.directory();
        let stem: String = stamp::format_ulid(ulid);
        let name: String = text::join(stem.as_str(), ".json");
        location::child(&directory, name.as_str())
    }

    /// Where to write an entry that is recorded at `now_ms`. Each entry gets a
    /// ULID of its own, minted for it. The ULID carries that time, to the 48 bits
    /// that it has for it; the reaper decides retention by it without reading any
    /// blob.
    pub fn record(&self, now_ms: u64) -> (key: Path)
        ensures
            exists|ulid: u128|
                #![trigger stamp::ulid_millis(ulid)]
                stamp::is_minted((now_ms % 0x1_0000_0000_0000) as u64, ulid) && stamp::ulid_millis(
                    ulid,
                ) == now_ms % 0x1_0000_0000_0000 && location::path_text(key)
                    == entry_path(location::path_text(self.prefix), ulid),
    {
        let ulid: u128 = stamp::new_ulid(now_ms % 0x1_0000_0000_0000);
        self.key(ulid)
    }

    /// The moment before which entries are outdated at `now_ms`.
    pub fn cutoff_ms(now_ms: u64, retention: Duration) -> (cutoff_ms: u64)
        ensures
            cutoff_ms == time::cutoff(now_ms, retention),
    {
        time::cutoff_ms(now_ms, retention)
    }

    /// Whether the blob at a location is to be deleted: an entry whose ULID
    /// timestamp is older than the cutoff. What is no entry is left alone.
    pub fn reap(location: &Path, cutoff_ms: u64) -> (outdated: bool)
        ensures
            outdated == is_outdated(location::path_text(*location), cutoff_ms),
    {
        let name: String = match location::filename(location) {
            Some(name) => name,
            None => return false,
        };
        let stem: String = match text::strip_suffix(name.as_str(), ".json") {
            Some(stem) => stem,
            None => return false,
        };
        proof {
            let whole = name@;
            assert(".json"@.is_suffix_of(whole)) by {
                assert(whole.subrange(whole.len() - ".json"@.len(), whole.len() as int)
                    =~= ".json"@);
            }
            assert(stem@ =~= whole.take(whole.len() - ".json"@.len()));
        }
        match stamp::parse_ulid(stem.as_str()) {
            Some(ulid) => stamp::timestamp_ms(ulid) < cutoff_ms,
            None => false,
        }
    }
}

/// The file name of an entry stands in its path as it is.
pub proof fn lemma_entry_name(ulid: u128)
    ensures
        location::segment(stamp::ulid_text(ulid) + ".json"@) == stamp::ulid_text(ulid) + ".json"@,
{
    reveal_strlit(".json");
    stamp::ulid_text_is_plain(ulid);
    let name = stamp::ulid_text(ulid) + ".json"@;
    assert forall|i: int| 0 <= i < name.len() implies location::is_plain_char(
        #[trigger] name[i],
    ) by {
        if i < stamp::ULID_LEN {
            assert(name[i] == stamp::ulid_text(ulid)[i]);
        }
    }
    assert(name.len() == 31);
    location::lemma_plain_segment(name);
}

/// The reaper reads the ULID of an entry back from where the entry lies.
pub proof fn entry_location_reads_back(prefix: Seq<char>, ulid: u128)
    ensures
        entry_ulid(entry_path(prefix, ulid)) == Some(ulid),
{
    let name = stamp::ulid_text(ulid) + ".json"@;
    lemma_entry_name(ulid);
    location::lemma_child_filename(audit_path(prefix), name);
    stamp::ulid_text_reads_back(ulid);
    reveal_strlit(".json");
    assert(name.subrange(name.len() - ".json"@.len(), name.len() as int) =~= ".json"@);
    assert(name.take(name.len() - ".json"@.len()) =~= stamp::ulid_text(ulid));
    assert(entry_path(prefix, ulid).len() > 0);
}

/// An entry is swept once its timestamp is older than the retention, and not
/// before.
pub proof fn entry_is_kept_for_its_retention(
    prefix: Seq<char>,
    ulid: u128,
    now_ms: u64,
    retention: Duration,
)
    ensures
        is_outdated(entry_path(prefix, ulid), time::cutoff(now_ms, retention)) <==> stamp::ulid_millis(
            ulid,
        ) + time::millis_u64(retention) < now_ms,
{
    entry_location_reads_back(prefix, ulid);
}

/// Entries are listed oldest-first: of two entries the one with the earlier
/// timestamp has the smaller location.
pub proof fn entries_sort_by_time(prefix: Seq<char>, earlier: u128, later: u128)
    requires
        stamp::ulid_millis(earlier) < stamp::ulid_millis(later),
    ensures
        stamp::text_less(entry_path(prefix, earlier), entry_path(prefix, later)),
{
    let (a, b) = (stamp::ulid_text(earlier), stamp::ulid_text(later));
    let (left, right) = (entry_path(prefix, earlier), entry_path(prefix, later));
    stamp::ulid_text_sorts_by_time(earlier, later);
    lemma_entry_name(earlier);
    lemma_entry_name(later);
    let k = choose|k: int|
        #![trigger a[k]]
        0 <= k < a.len() && k < b.len() && a.take(k) == b.take(k) && a[k] < b[k];
    let head = if audit_path(prefix).len() == 0 {
        Seq::empty()
    } else {
        audit_path(prefix) + seq!['/']
    };
    let at = head.len() + k;
    assert(left =~= head + a + ".json"@);
    assert(right =~= head + b + ".json"@);
    assert(left.take(at) =~= head + a.take(k));
    assert(right.take(at) =~= head + b.take(k));
    assert(left[at] == a[k] && right[at] == b[k]);
}

} // verus!
