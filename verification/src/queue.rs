//! What the library reads of the jobs in a Taquba queue, and what it asks of
//! the queue.
use crate::text;
use std::time::Duration;
use vstd::prelude::*;

verus! {

/// Where a job is in its life.
#[derive(Debug, Clone, Copy, PartialEq, Eq, Structural)]
pub enum JobStatus {
    /// Waiting to be claimed.
    Pending,
    /// Waiting for its time to come.
    Scheduled,
    /// Claimed by a worker.
    Claimed,
    /// Acknowledged.
    Done,
    /// Dead-lettered.
    Dead,
}

/// What came of cancelling a job.
#[derive(Debug, Clone, Copy, PartialEq, Eq, Structural)]
pub enum CancelOutcome {
    /// The job was removed before any worker claimed it.
    Removed,
    /// The job is claimed; its worker was asked to stop.
    Requested,
    /// There is no job that could be cancelled.
    NotFound,
}

/// A job of the queue.
#[derive(Debug, Clone)]
pub struct JobRecord {
    /// Identifies the job; the task that the job runs has the same id.
    pub id: String,
    /// The queue that the job is in.
    pub queue: String,
    /// The bytes that were enqueued.
    pub payload: Vec<u8>,
    /// The headers that were enqueued with them.
    pub headers: Vec<(String, String)>,
    /// Where the job is in its life.
    pub status: JobStatus,
    /// How often the job was attempted, counting the attempt that is running.
    pub attempts: u32,
    /// How often the job may be attempted.
    pub max_attempts: u32,
    /// When it was enqueued, in milliseconds since the epoch.
    pub enqueued_at: u64,
}

/// The contents of a [`JobRecord`].
pub struct JobView {
    /// Identifies the job.
    pub id: Seq<char>,
    /// The queue that the job is in.
    pub queue: Seq<char>,
    /// The bytes that were enqueued.
    pub payload: Seq<u8>,
    /// The headers that were enqueued with them.
    pub headers: Seq<(Seq<char>, Seq<char>)>,
    /// Where the job is in its life.
    pub status: JobStatus,
    /// How often the job was attempted.
    pub attempts: u32,
    /// How often the job may be attempted.
    pub max_attempts: u32,
    /// When it was enqueued.
    pub enqueued_at: u64,
}

/// The contents of headers.
pub open spec fn header_views(headers: Seq<(String, String)>) -> Seq<(Seq<char>, Seq<char>)> {
    headers.map_values(|header: (String, String)| (header.0@, header.1@))
}

impl View for JobRecord {
    type V = JobView;

    open spec fn view(&self) -> JobView {
        JobView {
            id: self.id@,
            queue: self.queue@,
            payload: self.payload@,
            headers: header_views(self.headers@),
            status: self.status,
            attempts: self.attempts,
            max_attempts: self.max_attempts,
            enqueued_at: self.enqueued_at,
        }
    }
}

/// The contents of a job that was looked up.
pub open spec fn found_job(found: Option<JobRecord>) -> Option<JobView> {
    match found {
        Some(job) => Some(job@),
        None => None,
    }
}

/// What a lookup of a job gave: the job, or what the failure says.
pub open spec fn job_read(read: Result<Option<JobRecord>, String>) -> Result<
    Option<JobView>,
    Seq<char>,
> {
    match read {
        Ok(found) => Ok(found_job(found)),
        Err(message) => Err(message@),
    }
}

/// The value of the first header with the given name.
pub open spec fn header(headers: Seq<(Seq<char>, Seq<char>)>, name: Seq<char>) -> Option<Seq<char>>
    decreases headers.len(),
{
    if headers.len() == 0 {
        None
    } else if headers[0].0 == name {
        Some(headers[0].1)
    } else {
        header(headers.skip(1), name)
    }
}

impl JobView {
    /// The tool that the headers of the job name.
    pub open spec fn tool_header(self) -> Option<Seq<char>> {
        header(self.headers, "tool"@)
    }

    /// The tool that the job calls: the one that its headers name, or else the
    /// one that its queue is named after.
    pub open spec fn tool(self) -> Seq<char> {
        match self.tool_header() {
            Some(tool) => tool,
            None => self.queue,
        }
    }
}

impl JobRecord {
    /// The tool that the headers of the job name.
    pub fn tool_header(&self) -> (tool: Option<String>)
        ensures
            text::text_of(tool) == self@.tool_header(),
    {
        let name: String = "tool".to_owned();
        let ghost all: Seq<(Seq<char>, Seq<char>)> = self@.headers;
        let mut next: usize = 0;
        assert(all.skip(0) =~= all);
        while next < self.headers.len()
            invariant
                next <= self.headers.len() == all.len(),
                name@ == "tool"@,
                all == header_views(self.headers@),
                header(all.skip(next as int), "tool"@) == header(all, "tool"@),
            decreases self.headers.len() - next,
        {
            assert(all.skip(next as int).skip(1) =~= all.skip(next + 1));
            if self.headers[next].0 == name {
                return Some(self.headers[next].1.clone());
            }
            next = next + 1;
        }
        None
    }

    /// The tool that the job calls.
    pub fn tool(&self) -> (tool: String)
        ensures
            tool@ == self@.tool(),
    {
        match self.tool_header() {
            Some(tool) => tool,
            None => self.queue.clone(),
        }
    }
}

/// A job to be enqueued.
#[derive(Debug, Clone)]
pub struct NewJob {
    /// The queue to put it in.
    pub queue: String,
    /// Its bytes.
    pub payload: Vec<u8>,
    /// Its headers.
    pub headers: Vec<(String, String)>,
}

/// The contents of a [`NewJob`].
pub struct NewJobView {
    /// The queue to put it in.
    pub queue: Seq<char>,
    /// Its bytes.
    pub payload: Seq<u8>,
    /// Its headers.
    pub headers: Seq<(Seq<char>, Seq<char>)>,
}

impl View for NewJob {
    type V = NewJobView;

    open spec fn view(&self) -> NewJobView {
        NewJobView {
            queue: self.queue@,
            payload: self.payload@,
            headers: header_views(self.headers@),
        }
    }
}

/// How a queue treats its jobs, as far as the library decides it.
#[derive(Debug, Clone, Copy)]
pub struct QueueConfig {
    /// How often a job may be attempted.
    pub max_attempts: u32,
    /// The wait before the first retry.
    pub retry_backoff_base: Duration,
    /// The longest wait before a retry.
    pub retry_backoff_max: Duration,
    /// The priority of a job that asks for none.
    pub default_priority: u32,
}

/// Reads the constant `taquba::PRIORITY_NORMAL`.
#[verifier::external_body]
pub(crate) fn normal_priority() -> (priority: u32)
    ensures
        priority == 1_000,
{
    taquba::PRIORITY_NORMAL
}

} // verus!
