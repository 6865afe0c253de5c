//! Persistent records of finished tasks, kept in the object store.
//!
//! On-store layout:
//!
//! ```text
//! <prefix>/results/<task_id>.json
//! ```
//!
//! One blob per finished task. The reaper lists the prefix and deletes
//! entries whose `expires_at_ms` is in the past.
use crate::error::Error;
use crate::location;
use crate::protocol::TaskStatus;
use crate::text;
use rmcp::model::CallToolResult;
use taquba::object_store::path::Path;
use vstd::prelude::*;

verus! {

/// How a task ended.
#[derive(Debug, Clone, Copy, PartialEq, Eq, Structural)]
pub enum FinishedStatus {
    /// The tool returned a result.
    Completed,
    /// The task failed for good.
    Failed,
    /// The task was cancelled.
    Cancelled,
}

/// What a client is told of a task that ended so.
pub open spec fn reported_status(status: FinishedStatus) -> TaskStatus {
    match status {
        FinishedStatus::Completed => TaskStatus::Completed,
        FinishedStatus::Failed => TaskStatus::Failed,
        FinishedStatus::Cancelled => TaskStatus::Cancelled,
    }
}

impl From<FinishedStatus> for TaskStatus {
    fn from(status: FinishedStatus) -> (reported: TaskStatus) {
        match status {
            FinishedStatus::Completed => TaskStatus::Completed,
            FinishedStatus::Failed => TaskStatus::Failed,
            FinishedStatus::Cancelled => TaskStatus::Cancelled,
        }
    }
}

impl vstd::std_specs::convert::FromSpecImpl<FinishedStatus> for TaskStatus {
    open spec fn obeys_from_spec() -> bool {
        true
    }

    open spec fn from_spec(status: FinishedStatus) -> TaskStatus {
        reported_status(status)
    }
}

/// The record of a finished task. The reaper looks at `expires_at_ms` only.
#[derive(Debug, Clone)]
pub struct ResultRecord {
    /// The task.
    pub task_id: String,
    /// The tool that it called.
    pub tool: String,
    /// How it ended.
    pub status: FinishedStatus,
    /// What the tool returned, for a completed task.
    pub result: Option<CallToolResult>,
    /// Why the task failed, for a failed one.
    pub error: Option<String>,
    /// When it ended, in milliseconds since the epoch.
    pub completed_at_ms: u64,
    /// From when on the record may be swept, in milliseconds since the epoch.
    pub expires_at_ms: u64,
}

/// The contents of a [`ResultRecord`].
pub struct ResultRecordView {
    /// The task.
    pub task_id: Seq<char>,
    /// The tool that it called.
    pub tool: Seq<char>,
    /// How it ended.
    pub status: FinishedStatus,
    /// What the tool returned.
    pub result: Option<CallToolResult>,
    /// Why the task failed.
    pub error: Option<Seq<char>>,
    /// When it ended.
    pub completed_at_ms: u64,
    /// From when on the record may be swept.
    pub expires_at_ms: u64,
}

impl View for ResultRecord {
    type V = ResultRecordView;

    open spec fn view(&self) -> ResultRecordView {
        ResultRecordView {
            task_id: self.task_id@,
            tool: self.tool@,
            status: self.status,
            result: self.result,
            error: text::text_of(self.error),
            completed_at_ms: self.completed_at_ms,
            expires_at_ms: self.expires_at_ms,
        }
    }
}

/// The contents of several records.
pub open spec fn record_views(records: Seq<ResultRecord>) -> Seq<ResultRecordView> {
    records.map_values(|record: ResultRecord| record@)
}

/// The contents of a record that was looked up.
pub open spec fn found_record(found: Option<ResultRecord>) -> Option<ResultRecordView> {
    match found {
        Some(record) => Some(record@),
        None => None,
    }
}

/// What a read of a record gave: the record, or what the failure says.
pub open spec fn record_read(read: Result<Option<ResultRecord>, Error>) -> Result<
    Option<ResultRecordView>,
    Seq<char>,
> {
    match read {
        Ok(found) => Ok(found_record(found)),
        Err(error) => Err(error.message()),
    }
}

/// The directory that the records lie in.
pub open spec fn results_path(prefix: Seq<char>) -> Seq<char> {
    location::child_path(prefix, "results"@)
}

/// Where the record of a task lies.
pub open spec fn record_path(prefix: Seq<char>, task_id: Seq<char>) -> Seq<char> {
    location::child_path(results_path(prefix), task_id + ".json"@)
}

/// What came of reading one blob.
pub enum BlobRead {
    /// There is no such blob.
    NotFound,
    /// The store failed, with this message.
    Failed(String),
    /// The blob was read: the record that it holds, or why it holds none.
    Read(Result<ResultRecord, String>),
}

/// What came of reading one blob of a listing.
pub enum ListedBlob {
    /// The listing or the read failed, with this message.
    Failed(String),
    /// The blob was read: the record that it holds, or why it holds none.
    Read(Result<ResultRecord, String>),
}

/// The records among the blobs of a listing, or the first failure.
pub open spec fn listed_records(blobs: Seq<ListedBlob>) -> Result<
    Seq<ResultRecordView>,
    Seq<char>,
>
    decreases blobs.len(),
{
    if blobs.len() == 0 {
        Ok(Seq::empty())
    } else {
        match listed_records(blobs.drop_last()) {
            Err(failure) => Err(failure),
            Ok(records) => match blobs.last() {
                ListedBlob::Failed(failure) => Err(failure@),
                ListedBlob::Read(Ok(record)) => Ok(records.push(record@)),
                ListedBlob::Read(Err(_)) => Ok(records),
            },
        }
    }
}

/// A listing that fails within its first `len` blobs fails the same way as a
/// whole.
proof fn lemma_failure_ends_listing(blobs: Seq<ListedBlob>, len: int)
    requires
        0 <= len <= blobs.len(),
        listed_records(blobs.take(len)) is Err,
    ensures
        listed_records(blobs) == listed_records(blobs.take(len)),
    decreases blobs.len() - len,
{
    if len < blobs.len() {
        let longer = blobs.take(len + 1);
        assert(longer.drop_last() =~= blobs.take(len));
        lemma_failure_ends_listing(blobs, len + 1);
    } else {
        assert(blobs.take(len) =~= blobs);
    }
}

/// Whether a record may be swept at `now_ms`.
pub open spec fn is_expired(record: ResultRecordView, now_ms: u64) -> bool {
    record.expires_at_ms <= now_ms
}

/// The tasks whose records may be swept at `now_ms`, in the order of the
/// records.
pub open spec fn expired_tasks(records: Seq<ResultRecordView>, now_ms: u64) -> Seq<Seq<char>> {
    records.filter(|record: ResultRecordView| is_expired(record, now_ms)).map_values(
        |record: ResultRecordView| record.task_id,
    )
}

/// The tasks among `tasks` whose deletion went through, in order.
pub open spec fn deleted_tasks(tasks: Seq<Seq<char>>, deleted: Seq<bool>) -> Seq<Seq<char>>
    decreases tasks.len(),
{
    if tasks.len() == 0 {
        Seq::empty()
    } else {
        let before = deleted_tasks(tasks.drop_last(), deleted);
        if deleted[tasks.len() - 1] {
            before.push(tasks.last())
        } else {
            before
        }
    }
}

/// The expired tasks of a listing are those of the listing without its last
/// record, and that record's where it has expired.
pub proof fn lemma_expired_tasks(records: Seq<ResultRecordView>, now_ms: u64)
    ensures
        records.len() == 0 ==> expired_tasks(records, now_ms) == Seq::<Seq<char>>::empty(),
        records.len() > 0 ==> expired_tasks(records, now_ms) == if is_expired(
            records.last(),
            now_ms,
        ) {
            expired_tasks(records.drop_last(), now_ms).push(records.last().task_id)
        } else {
            expired_tasks(records.drop_last(), now_ms)
        },
{
    let keep = |record: ResultRecordView| is_expired(record, now_ms);
    let task = |record: ResultRecordView| record.task_id;
    reveal(Seq::filter);
    if records.len() > 0 {
        let kept = records.drop_last().filter(keep);
        assert(kept.push(records.last()).map_values(task) =~= kept.map_values(task).push(
            records.last().task_id,
        ));
    } else {
        assert(records.filter(keep).map_values(task) =~= Seq::empty());
    }
}

/// The store of finished-task records.
pub struct ResultStore {
    /// The path that everything of the backend lies under.
    pub prefix: Path,
}

impl ResultStore {
    /// The store under `prefix`.
    pub fn new(prefix: Path) -> (store: ResultStore)
        ensures
            store.prefix == prefix,
    {
        ResultStore { prefix }
    }

    /// The directory that the records lie in.
    pub fn directory(&self) -> (directory: Path)
        ensures
            location::path_text(directory) == results_path(location::path_text(self.prefix)),
    {
        location::child(&self.prefix, "results")
    }

    /// Where the record of a task lies.
    pub fn key(&self, task_id: &str) -> (key: Path)
        ensures
            location::path_text(key) == record_path(location::path_text(self.prefix), task_id@),
    {
        let directory: Path = self.directory();
        let name: String = text::join(task_id, ".json");
        location::child(&directory, name.as_str())
    }

    /// The outcome of fetching a record: a missing blob is no record, a failure
    /// of the store and a blob that holds no record are errors.
    pub fn get(read: BlobRead) -> (found: Result<Option<ResultRecord>, Error>)
        ensures
            found == match read {
                BlobRead::NotFound => Ok::<Option<ResultRecord>, Error>(None),
                BlobRead::Failed(message) => Err(Error::ObjectStore(message)),
                BlobRead::Read(Ok(record)) => Ok(Some(record)),
                BlobRead::Read(Err(message)) => Err(Error::Serde(message)),
            },
    {
        match read {
            BlobRead::NotFound => Ok(None),
            BlobRead::Failed(message) => Err(Error::ObjectStore(message)),
            BlobRead::Read(Ok(record)) => Ok(Some(record)),
            BlobRead::Read(Err(message)) => Err(Error::Serde(message)),
        }
    }

    /// The records of a listing, in its order. Blobs that hold no record are
    /// skipped; the first failure of the store ends the listing with an error.
    pub fn list(blobs: Vec<ListedBlob>) -> (listed: Result<Vec<ResultRecord>, Error>)
        ensures
            match listed {
                Ok(records) => listed_records(blobs@) == Ok::<Seq<ResultRecordView>, Seq<char>>(
                    record_views(records@),
                ),
                Err(Error::ObjectStore(failure)) => listed_records(blobs@) == Err::<
                    Seq<ResultRecordView>,
                    Seq<char>,
                >(failure@),
                Err(_) => false,
            },
    {
        let ghost all: Seq<ListedBlob> = blobs@;
        let mut records: Vec<ResultRecord> = Vec::new();
        assert(all.take(0) =~= Seq::empty());
        assert(record_views(records@) =~= Seq::empty());
        for blob in it: blobs
            invariant
                it.seq() == all,
                listed_records(all.take(it.index())) == Ok::<Seq<ResultRecordView>, Seq<char>>(
                    record_views(records@),
                ),
        {
            let ghost seen: Seq<ListedBlob> = all.take(it.index() + 1);
            assert(seen.drop_last() =~= all.take(it.index()));
            let ghost before: Seq<ResultRecord> = records@;
            match blob {
                ListedBlob::Failed(message) => {
                    proof {
                        lemma_failure_ends_listing(all, it.index() + 1);
                    }
                    return Err(Error::ObjectStore(message));
                },
                ListedBlob::Read(Ok(record)) => {
                    records.push(record);
                    assert(record_views(records@) =~= record_views(before).push(record@));
                },
                ListedBlob::Read(Err(_)) => {},
            }
        }
        assert(all.take(all.len() as int) =~= all);
        Ok(records)
    }

    /// The tasks whose records are to be deleted at `now_ms`: those that
    /// expired, in the order of the listing. A listing that failed is an error.
    pub fn reap(listed: Result<Vec<ResultRecord>, Error>, now_ms: u64) -> (expired: Result<
        Vec<String>,
        Error,
    >)
        ensures
            match (listed, expired) {
                (Ok(records), Ok(expired)) => text::texts(expired@) == expired_tasks(
                    record_views(records@),
                    now_ms,
                ),
                (Err(failure), Err(error)) => error == failure,
                _ => false,
            },
    {
        match listed {
            Err(failure) => Err(failure),
            Ok(records) => Ok(Self::expired(&records, now_ms)),
        }
    }

    /// The tasks whose records may be swept at `now_ms`.
    fn expired(records: &Vec<ResultRecord>, now_ms: u64) -> (expired: Vec<String>)
        ensures
            text::texts(expired@) == expired_tasks(record_views(records@), now_ms),
    {
        let ghost views: Seq<ResultRecordView> = record_views(records@);
        let mut expired: Vec<String> = Vec::new();
        let mut next: usize = 0;
        proof {
            lemma_expired_tasks(views.take(0), now_ms);
            assert(text::texts(expired@) =~= Seq::empty());
        }
        while next < records.len()
            invariant
                next <= records.len(),
                views == record_views(records@),
                text::texts(expired@) == expired_tasks(views.take(next as int), now_ms),
            decreases records.len() - next,
        {
            let record: &ResultRecord = &records[next];
            let ghost before: Seq<String> = expired@;
            proof {
                let longer = views.take(next + 1);
                lemma_expired_tasks(longer, now_ms);
                assert(longer.drop_last() =~= views.take(next as int));
                assert(longer.last() == record@);
            }
            if record.expires_at_ms <= now_ms {
                expired.push(record.task_id.clone());
                assert(text::texts(expired@) =~= text::texts(before).push(record.task_id@));
            }
            next = next + 1;
        }
        assert(views.take(next as int) =~= views);
        expired
    }

    /// The tasks whose records were deleted, given which deletions went through.
    pub fn swept(tasks: Vec<String>, deleted: &Vec<bool>) -> (swept: Vec<String>)
        requires
            tasks.len() == deleted.len(),
        ensures
            text::texts(swept@) == deleted_tasks(text::texts(tasks@), deleted@),
    {
        let ghost all: Seq<Seq<char>> = text::texts(tasks@);
        let mut swept: Vec<String> = Vec::new();
        assert(text::texts(swept@) =~= Seq::empty());
        let mut next: usize = 0;
        while next < tasks.len()
            invariant
                next <= tasks.len() == deleted.len(),
                all == text::texts(tasks@),
                text::texts(swept@) == deleted_tasks(all.take(next as int), deleted@),
            decreases tasks.len() - next,
        {
            let ghost before: Seq<String> = swept@;
            assert(all.take(next + 1).drop_last() =~= all.take(next as int));
            if deleted[next] {
                swept.push(tasks[next].clone());
                assert(text::texts(swept@) =~= text::texts(before).push(tasks@[next as int]@));
            }
            next = next + 1;
        }
        assert(all.take(next as int) =~= all);
        swept
    }
}

} // verus!
