//! What is kept of a task, where it lies, and when it is swept.
use crate::audit;
use crate::audit::{AuditEntry, AuditEvent, AuditLog};
use crate::error::Error;
use crate::location;
use crate::result_store;
use crate::result_store::{ListedBlob, ResultRecord, ResultRecordView, ResultStore};
use crate::stamp;
use crate::text;
use taquba::object_store::path::Path;
use vstd::prelude::*;

verus! {

/// The records lie in a directory of their own under the prefix, each under the
/// name of its task and `.json`; the log lies in another beside it. Without a
/// prefix the directories stand at the top.
pub proof fn records_and_entries_have_their_directories(
    prefix: Seq<char>,
    task_id: Seq<char>,
    ulid: u128,
)
    ensures
        prefix.len() == 0 ==> result_store::results_path(prefix) == "results"@,
        prefix.len() > 0 ==> result_store::results_path(prefix) == prefix + seq!['/'] + "results"@,
        prefix.len() == 0 ==> audit::audit_path(prefix) == "audit"@,
        prefix.len() > 0 ==> audit::audit_path(prefix) == prefix + seq!['/'] + "audit"@,
        result_store::record_path(prefix, task_id) == result_store::results_path(prefix)
            + seq!['/'] + location::segment(task_id + ".json"@),
        audit::entry_path(prefix, ulid) == audit::audit_path(prefix) + seq!['/']
            + stamp::ulid_text(ulid) + ".json"@,
{
    reveal_strlit("results");
    reveal_strlit("audit");
    assert(location::is_plain("results"@)) by {
        assert("results"@.len() == 7);
    }
    assert(location::is_plain("audit"@)) by {
        assert("audit"@.len() == 5);
    }
    location::lemma_plain_segment("results"@);
    location::lemma_plain_segment("audit"@);
    audit::lemma_entry_name(ulid);
    assert(audit::audit_path(prefix) + seq!['/'] + (stamp::ulid_text(ulid) + ".json"@)
        =~= audit::audit_path(prefix) + seq!['/'] + stamp::ulid_text(ulid) + ".json"@);
}

/// A listing gives the records of its blobs in their order: one more blob adds
/// the record that it holds, whatever its status, at the end; one that holds
/// none adds nothing; one that could not be read is the failure of the whole
/// listing. After a failure nothing more is looked at.
pub proof fn listing_gives_every_record(blobs: Seq<ListedBlob>, blob: ListedBlob)
    ensures
        result_store::listed_records(Seq::empty()) == Ok::<Seq<ResultRecordView>, Seq<char>>(
            Seq::empty(),
        ),
        result_store::listed_records(blobs) is Err ==> result_store::listed_records(
            blobs.push(blob),
        ) == result_store::listed_records(blobs),
        result_store::listed_records(blobs) matches Ok(records) ==> match blob {
            ListedBlob::Read(Ok(record)) => result_store::listed_records(blobs.push(blob)) == Ok::<
                Seq<ResultRecordView>,
                Seq<char>,
            >(records.push(record@)),
            ListedBlob::Read(Err(_)) => result_store::listed_records(blobs.push(blob)) == Ok::<
                Seq<ResultRecordView>,
                Seq<char>,
            >(records),
            ListedBlob::Failed(message) => result_store::listed_records(blobs.push(blob)) == Err::<
                Seq<ResultRecordView>,
                Seq<char>,
            >(message@),
        },
{
    assert(blobs.push(blob).drop_last() =~= blobs);
}

/// A listing in which every blob holds a record gives as many records, each in
/// its place.
pub proof fn whole_listing_is_given(blobs: Seq<ListedBlob>, records: Seq<ResultRecord>)
    requires
        blobs.len() == records.len(),
        forall|i: int|
            0 <= i < blobs.len() ==> #[trigger] blobs[i] == ListedBlob::Read(Ok(records[i])),
    ensures
        result_store::listed_records(blobs) == Ok::<Seq<ResultRecordView>, Seq<char>>(
            Seq::new(records.len(), |i: int| records[i]@),
        ),
    decreases blobs.len(),
{
    let given = Seq::new(records.len(), |i: int| records[i]@);
    if blobs.len() > 0 {
        let fewer = records.drop_last();
        whole_listing_is_given(blobs.drop_last(), fewer);
        assert(blobs.last() == ListedBlob::Read(Ok(records.last())));
        assert(Seq::new(fewer.len(), |i: int| fewer[i]@).push(records.last()@) =~= given);
    } else {
        assert(given =~= Seq::empty());
    }
}

/// One more record adds its task to those to be swept exactly where the moment of
/// its expiry has come, whatever its status. Without records there are none.
pub proof fn expired_records_are_swept(
    records: Seq<ResultRecordView>,
    record: ResultRecordView,
    now_ms: u64,
)
    ensures
        result_store::is_expired(record, now_ms) <==> record.expires_at_ms <= now_ms,
        result_store::expired_tasks(Seq::empty(), now_ms).len() == 0,
        record.expires_at_ms <= now_ms ==> result_store::expired_tasks(
            records.push(record),
            now_ms,
        ) == result_store::expired_tasks(records, now_ms).push(record.task_id),
        record.expires_at_ms > now_ms ==> result_store::expired_tasks(
            records.push(record),
            now_ms,
        ) == result_store::expired_tasks(records, now_ms),
{
    result_store::lemma_expired_tasks(Seq::empty(), now_ms);
    result_store::lemma_expired_tasks(records.push(record), now_ms);
    assert(records.push(record).drop_last() =~= records);
}

/// Which tasks were deleted does not depend on what follows them.
proof fn lemma_deleted_so_far(tasks: Seq<Seq<char>>, deleted: Seq<bool>, next: bool)
    requires
        tasks.len() <= deleted.len(),
    ensures
        result_store::deleted_tasks(tasks, deleted.push(next)) == result_store::deleted_tasks(
            tasks,
            deleted,
        ),
    decreases tasks.len(),
{
    if tasks.len() > 0 {
        lemma_deleted_so_far(tasks.drop_last(), deleted, next);
    }
}

/// One more task counts as swept exactly where its deletion went through.
pub proof fn deleted_records_are_swept(
    tasks: Seq<Seq<char>>,
    deleted: Seq<bool>,
    task_id: Seq<char>,
    went_through: bool,
)
    requires
        tasks.len() == deleted.len(),
    ensures
        result_store::deleted_tasks(Seq::empty(), Seq::empty()).len() == 0,
        went_through ==> result_store::deleted_tasks(
            tasks.push(task_id),
            deleted.push(went_through),
        ) == result_store::deleted_tasks(tasks, deleted).push(task_id),
        !went_through ==> result_store::deleted_tasks(
            tasks.push(task_id),
            deleted.push(went_through),
        ) == result_store::deleted_tasks(tasks, deleted),
{
    assert(tasks.push(task_id).drop_last() =~= tasks);
    lemma_deleted_so_far(tasks, deleted, went_through);
}

/// A blob of the log is swept exactly where its file name is a ULID and `.json`
/// and the first 48 bits of the ULID are a moment before the cutoff. What has
/// another name stays.
pub proof fn old_entries_are_swept(
    head: Seq<char>,
    name: Seq<char>,
    stem: Seq<char>,
    cutoff_ms: u64,
)
    requires
        name.len() > 0,
        !name.contains('/'),
    ensures
        name == stem + ".json"@ ==> (audit::is_outdated(head + seq!['/'] + name, cutoff_ms) <==> (
        stamp::ulid_value(stem) matches Some(ulid) && ulid / 0x1_0000_0000_0000_0000_0000
            < cutoff_ms)),
        name == stem + ".json"@ ==> audit::is_outdated(name, cutoff_ms) == audit::is_outdated(
            head + seq!['/'] + name,
            cutoff_ms,
        ),
        !".json"@.is_suffix_of(name) ==> !audit::is_outdated(head + seq!['/'] + name, cutoff_ms)
            && !audit::is_outdated(name, cutoff_ms),
        !audit::is_outdated(Seq::empty(), cutoff_ms),
{
    location::lemma_last_segment(head, name);
    if name == stem + ".json"@ {
        assert(name.subrange(name.len() - ".json"@.len(), name.len() as int) =~= ".json"@);
        assert(name.take(name.len() - ".json"@.len()) =~= stem);
        match stamp::ulid_value(stem) {
            Some(ulid) => {
                assert(ulid / 0x1_0000_0000_0000_0000_0000 <= 0xffff_ffff_ffff) by (bit_vector);
            },
            None => {},
        }
    }
}

/// The moment that a ULID carries is in its first 48 bits.
pub proof fn ulid_carries_its_moment(ulid: u128)
    ensures
        stamp::ulid_millis(ulid) * 0x1_0000_0000_0000_0000_0000 <= ulid,
        ulid < (stamp::ulid_millis(ulid) + 1) * 0x1_0000_0000_0000_0000_0000,
{
    assert(ulid / 0x1_0000_0000_0000_0000_0000 <= 0xffff_ffff_ffff) by (bit_vector);
}

/// A listing without a failed read gives records, however many blobs hold none.
proof fn lemma_unbroken_listing(blobs: Seq<ListedBlob>)
    requires
        forall|i: int| 0 <= i < blobs.len() ==> !((#[trigger] blobs[i]) is Failed),
    ensures
        result_store::listed_records(blobs) is Ok,
    decreases blobs.len(),
{
    if blobs.len() > 0 {
        lemma_unbroken_listing(blobs.drop_last());
        assert(!(blobs[blobs.len() - 1] is Failed));
    }
}

/// The first blob that could not be read is the failure of the listing, whatever
/// else is listed.
pub proof fn first_failure_is_told(blobs: Seq<ListedBlob>, at: int, message: String)
    requires
        0 <= at < blobs.len(),
        blobs[at] == ListedBlob::Failed(message),
        forall|i: int| 0 <= i < at ==> !((#[trigger] blobs[i]) is Failed),
    ensures
        result_store::listed_records(blobs) == Err::<Seq<ResultRecordView>, Seq<char>>(message@),
    decreases blobs.len(),
{
    let fewer = blobs.drop_last();
    if at == blobs.len() - 1 {
        lemma_unbroken_listing(fewer);
    } else {
        first_failure_is_told(fewer, at, message);
    }
}

/// A listing fails exactly where a blob could not be read, as an error of the
/// object store. One that does not fail gives no more records than blobs.
pub proof fn listing_fails_with_its_blobs(
    blobs: Vec<ListedBlob>,
    listed: Result<Vec<ResultRecord>, Error>,
    at: int,
    message: String,
)
    requires
        call_ensures(ResultStore::list, (blobs,), listed),
    ensures
        (forall|i: int| 0 <= i < blobs.len() ==> !((#[trigger] blobs[i]) is Failed))
            ==> listed is Ok,
        0 <= at < blobs.len() && blobs[at] == ListedBlob::Failed(message) && (forall|i: int|
            0 <= i < at ==> !((#[trigger] blobs[i]) is Failed)) ==> (
        listed matches Err(Error::ObjectStore(told)) && told@ == message@),
{
    if forall|i: int| 0 <= i < blobs.len() ==> !((#[trigger] blobs[i]) is Failed) {
        assert forall|i: int| 0 <= i < blobs@.len() implies !((#[trigger] blobs@[i]) is Failed) by {
            assert(!(blobs[i] is Failed));
        }
        lemma_unbroken_listing(blobs@);
    }
    if 0 <= at < blobs.len() && blobs[at] == ListedBlob::Failed(message) && (forall|i: int|
        0 <= i < at ==> !((#[trigger] blobs[i]) is Failed)) {
        assert forall|i: int| 0 <= i < at implies !((#[trigger] blobs@[i]) is Failed) by {
            assert(!(blobs[i] is Failed));
        }
        first_failure_is_told(blobs@, at, message);
    }
}

/// A task is to be swept exactly where a record of it has expired.
pub proof fn task_is_swept_where_a_record_expired(
    records: Seq<ResultRecordView>,
    now_ms: u64,
    task_id: Seq<char>,
)
    ensures
        result_store::expired_tasks(records, now_ms).contains(task_id) <==> exists|i: int|
            0 <= i < records.len() && (#[trigger] records[i]).task_id == task_id
                && records[i].expires_at_ms <= now_ms,
    decreases records.len(),
{
    let tasks = result_store::expired_tasks(records, now_ms);
    result_store::lemma_expired_tasks(records, now_ms);
    if records.len() > 0 {
        let fewer = records.drop_last();
        let before = result_store::expired_tasks(fewer, now_ms);
        let last = records.last();
        task_is_swept_where_a_record_expired(fewer, now_ms, task_id);
        if before.contains(task_id) {
            let k = choose|k: int| 0 <= k < before.len() && before[k] == task_id;
            assert(tasks[k] == task_id);
            let i = choose|i: int|
                0 <= i < fewer.len() && (#[trigger] fewer[i]).task_id == task_id
                    && fewer[i].expires_at_ms <= now_ms;
            assert(records[i] == fewer[i]);
        }
        if last.task_id == task_id && last.expires_at_ms <= now_ms {
            assert(tasks[tasks.len() - 1] == task_id);
            assert(records[records.len() - 1] == last);
        }
        if tasks.contains(task_id) && !before.contains(task_id) {
            let k = choose|k: int| 0 <= k < tasks.len() && tasks[k] == task_id;
            if k < before.len() {
                assert(before[k] == task_id);
            }
            assert(records[records.len() - 1] == last);
        }
        if !before.contains(task_id) {
            assert forall|i: int|
                0 <= i < records.len() && (#[trigger] records[i]).task_id == task_id
                    && records[i].expires_at_ms <= now_ms implies i == records.len() - 1 by {
                if i < fewer.len() {
                    assert(fewer[i] == records[i]);
                }
            }
        }
    }
}

/// A sweep of a listing that went well names expired tasks only, and all of them;
/// one of a listing that failed fails the same way.
pub proof fn sweep_names_the_expired(
    listed: Result<Vec<ResultRecord>, Error>,
    now_ms: u64,
    expired: Result<Vec<String>, Error>,
    i: int,
    j: int,
)
    requires
        call_ensures(ResultStore::reap, (listed, now_ms), expired),
    ensures
        listed matches Err(failure) ==> expired == Err::<Vec<String>, Error>(failure),
        listed matches Ok(records) ==> {
            &&& expired matches Ok(tasks)
            &&& 0 <= i < records.len() && records[i].expires_at_ms <= now_ms ==> exists|k: int|
                0 <= k < tasks.len() && (#[trigger] tasks[k])@ == records[i].task_id@
            &&& 0 <= j < tasks.len() ==> exists|k: int|
                0 <= k < records.len() && (#[trigger] records[k]).task_id@ == tasks[j]@
                    && records[k].expires_at_ms <= now_ms
        },
{
    match (listed, expired) {
        (Ok(records), Ok(tasks)) => {
            let views = result_store::record_views(records@);
            let named = text::texts(tasks@);
            if 0 <= i < records.len() && records[i].expires_at_ms <= now_ms {
                let task_id = records[i].task_id@;
                task_is_swept_where_a_record_expired(views, now_ms, task_id);
                assert(views[i] == records[i]@);
                let k = choose|k: int| 0 <= k < named.len() && named[k] == task_id;
                assert(tasks[k]@ == task_id);
            }
            if 0 <= j < tasks.len() {
                let task_id = tasks[j]@;
                assert(named[j] == task_id);
                task_is_swept_where_a_record_expired(views, now_ms, task_id);
                let k = choose|k: int|
                    0 <= k < views.len() && (#[trigger] views[k]).task_id == task_id
                        && views[k].expires_at_ms <= now_ms;
                assert(records[k]@ == views[k]);
            }
        },
        _ => {},
    }
}

/// An entry says what it is given.
pub proof fn entry_says_what_it_is_given(
    event: AuditEvent,
    task_id: &str,
    tool: &str,
    at_ms: u64,
    error: Option<String>,
    entry: AuditEntry,
)
    requires
        call_ensures(audit::entry, (event, task_id, tool, at_ms, error), entry),
    ensures
        entry.event == event,
        entry.task_id@ == task_id@,
        entry.tool@ == tool@,
        entry.at_ms == at_ms,
        error is None <==> entry.error is None,
        error matches Some(given) ==> (entry.error matches Some(told) && told@ == given@),
{
}

/// An entry is recorded in the log under the backend's prefix, under a ULID that
/// carries the moment of the recording, as far as 48 bits hold it.
pub proof fn entry_is_recorded_at_its_moment(log: AuditLog, now_ms: u64, key: Path)
    requires
        call_ensures(AuditLog::record, (&log, now_ms), key),
    ensures
        exists|ulid: u128|
            ulid / 0x1_0000_0000_0000_0000_0000 == now_ms % 0x1_0000_0000_0000
                && location::path_text(key) == audit::audit_path(location::path_text(log.prefix))
                + seq!['/'] + #[trigger] stamp::ulid_text(ulid) + ".json"@,
{
    let ulid = choose|ulid: u128|
        #![trigger stamp::ulid_millis(ulid)]
        stamp::is_minted((now_ms % 0x1_0000_0000_0000) as u64, ulid) && stamp::ulid_millis(ulid)
            == now_ms % 0x1_0000_0000_0000 && location::path_text(key) == audit::entry_path(
            location::path_text(log.prefix),
            ulid,
        );
    ulid_carries_its_moment(ulid);
    records_and_entries_have_their_directories(
        location::path_text(log.prefix),
        Seq::empty(),
        ulid,
    );
    assert(ulid / 0x1_0000_0000_0000_0000_0000 <= 0xffff_ffff_ffff) by (bit_vector);
    assert(location::path_text(key) == audit::audit_path(location::path_text(log.prefix))
        + seq!['/'] + stamp::ulid_text(ulid) + ".json"@);
}

} // verus!
