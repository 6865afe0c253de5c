//! Terminal task pointer, written to Taquba's user KV namespace in the *same
//! transaction* as the job ack.
//!
//! A worker that finishes a task writes the (potentially large) result blob to
//! object storage and then settles the job, committing this small pointer
//! atomically with the acknowledgement. The pointer, not the blob, records
//! whether a task reached a terminal ack state: the blob is written *before*
//! the queue transition, so reading the pointer first keeps a task that is
//! still claimed, and could yet run again, from being reported as finished.
//!
//! Pointers exist only for ack-path terminals: a completed run or a
//! cooperatively cancelled one. The dead-letter and cancel-while-pending paths
//! do not ack the job, so they carry no pointer and are read back from the
//! result blob.
use crate::error::Error;
use crate::result_store::FinishedStatus;
use crate::text;
use vstd::prelude::*;

verus! {

/// Terminal pointer for an ack-settled task. Carries just enough to tell a
/// client about the task without reading the result blob.
#[derive(Debug, Clone, Copy)]
pub struct TaskPointer {
    /// How the task ended.
    pub status: FinishedStatus,
    /// When it ended, in milliseconds since the epoch.
    pub completed_at_ms: u64,
    /// When its result blob expires, in milliseconds since the epoch.
    pub expires_at_ms: u64,
}

/// The key under which the pointer of a task lives.
pub open spec fn key_of(task_id: Seq<char>) -> Seq<u8> {
    vstd::utf8::encode_utf8("mcp:task:"@ + task_id)
}

/// The keys of several tasks.
pub open spec fn keys_of(tasks: Seq<Seq<char>>) -> Seq<Seq<u8>> {
    tasks.map_values(|task_id: Seq<char>| key_of(task_id))
}

/// The bytes of several keys.
pub open spec fn key_bytes(keys: Seq<Vec<u8>>) -> Seq<Seq<u8>> {
    keys.map_values(|key: Vec<u8>| key@)
}

/// What a read of a pointer gave: the pointer, or what the failure says.
pub open spec fn pointer_read(read: Result<Option<TaskPointer>, Error>) -> Result<
    Option<TaskPointer>,
    Seq<char>,
> {
    match read {
        Ok(found) => Ok(found),
        Err(error) => Err(error.message()),
    }
}

/// Key under which a task's terminal pointer lives. Taquba scopes the keys of
/// its callers, so this cannot collide with the queue's own state.
pub fn pointer_key(task_id: &str) -> (key: Vec<u8>)
    ensures
        key@ == key_of(task_id@),
{
    let name: String = text::join("mcp:task:", task_id);
    name.as_str().as_bytes_vec()
}

/// The keys of the pointers of several tasks, in order.
pub fn pointer_keys(tasks: &Vec<String>) -> (keys: Vec<Vec<u8>>)
    ensures
        key_bytes(keys@) == keys_of(text::texts(tasks@)),
{
    let mut keys: Vec<Vec<u8>> = Vec::new();
    let mut next: usize = 0;
    while next < tasks.len()
        invariant
            next <= tasks.len(),
            key_bytes(keys@) =~= keys_of(text::texts(tasks@).take(next as int)),
        decreases tasks.len() - next,
    {
        let ghost before: Seq<Vec<u8>> = keys@;
        keys.push(pointer_key(tasks[next].as_str()));
        proof {
            let seen = text::texts(tasks@).take(next as int);
            assert(text::texts(tasks@).take(next + 1) =~= seen.push(tasks@[next as int]@));
            assert(key_bytes(keys@) =~= key_bytes(before).push(key_of(tasks@[next as int]@)));
        }
        next = next + 1;
    }
    assert(text::texts(tasks@).take(next as int) =~= text::texts(tasks@));
    keys
}

/// The outcome of fetching a pointer: a missing value is no pointer, a failure
/// of the queue and a value that holds no pointer are errors.
pub fn read(fetched: Result<Option<Result<TaskPointer, String>>, String>) -> (found: Result<
    Option<TaskPointer>,
    Error,
>)
    ensures
        found == match fetched {
            Ok(None) => Ok::<Option<TaskPointer>, Error>(None),
            Ok(Some(Ok(pointer))) => Ok(Some(pointer)),
            Ok(Some(Err(message))) => Err(Error::Serde(message)),
            Err(message) => Err(Error::Taquba(message)),
        },
{
    match fetched {
        Ok(None) => Ok(None),
        Ok(Some(Ok(pointer))) => Ok(Some(pointer)),
        Ok(Some(Err(message))) => Err(Error::Serde(message)),
        Err(message) => Err(Error::Taquba(message)),
    }
}

/// No two tasks share a pointer: their keys differ where their ids do.
pub proof fn pointer_keys_are_distinct(left: Seq<char>, right: Seq<char>)
    requires
        key_of(left) == key_of(right),
    ensures
        left == right,
{
    let scope = "mcp:task:"@;
    vstd::utf8::encode_utf8_decode_utf8(scope + left);
    vstd::utf8::encode_utf8_decode_utf8(scope + right);
    assert(scope + left == scope + right);
    assert(left =~= (scope + left).skip(scope.len() as int));
    assert(right =~= (scope + right).skip(scope.len() as int));
}

} // verus!
