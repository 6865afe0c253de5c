//! Requests for the list of tasks.
use crate::backend::TaqubaTaskBackend;
use crate::error::Error;
use crate::in_flight::{InFlight, InFlightInfoView};
use crate::protocol;
use crate::protocol::{McpError, McpErrorView, Task, TaskStatus, TaskView};
use crate::result_store;
use crate::result_store::{ResultRecord, ResultRecordView};
use crate::text;
use crate::time;
use vstd::prelude::*;

verus! {

/// The contents of several tasks.
pub open spec fn task_views(tasks: Seq<Task>) -> Seq<TaskView> {
    tasks.map_values(|task: Task| task@)
}

/// What the client is told of tasks in flight.
pub open spec fn running_tasks(
    tasks: Seq<(Seq<char>, InFlightInfoView)>,
    ttl: Option<u64>,
    now: Seq<char>,
) -> Seq<TaskView> {
    tasks.map_values(
        |task: (Seq<char>, InFlightInfoView)|
            protocol::working_task(task.0, task.1.message(), task.1.started_at_ms, ttl, now),
    )
}

/// What the client is told of finished tasks.
pub open spec fn finished_tasks(
    records: Seq<ResultRecordView>,
    ttl: Option<u64>,
    now: Seq<char>,
) -> Seq<TaskView> {
    records.map_values(
        |record: ResultRecordView|
            protocol::finished_task(
                record.task_id,
                result_store::reported_status(record.status),
                record.error,
                record.completed_at_ms,
                ttl,
                now,
            ),
    )
}

/// The answer to a request for the list of tasks: those in flight, then those
/// that have finished, unless the result store could not be listed.
pub open spec fn task_list(
    running: Seq<(Seq<char>, InFlightInfoView)>,
    finished: Result<Vec<ResultRecord>, Error>,
    ttl: Option<u64>,
    now: Seq<char>,
) -> Result<Seq<TaskView>, McpErrorView> {
    match finished {
        Ok(records) => Ok(
            running_tasks(running, ttl, now) + finished_tasks(
                result_store::record_views(records@),
                ttl,
                now,
            ),
        ),
        Err(error) => Err(
            protocol::internal_error("result store list failed: "@, error.message()),
        ),
    }
}

/// The contents of a list of tasks.
pub open spec fn list_of(reply: Result<Vec<Task>, McpError>) -> Result<
    Seq<TaskView>,
    McpErrorView,
> {
    match reply {
        Ok(tasks) => Ok(task_views(tasks@)),
        Err(error) => Err(error@),
    }
}

impl<S, C> TaqubaTaskBackend<S, C> {
    /// List tasks the backend knows about: tasks in flight plus everything in
    /// the result store. Tasks that wait in the queue without the index knowing
    /// of them (e.g. after a restart) are not surfaced.
    pub fn list_tasks(
        &self,
        in_flight: &InFlight,
        finished: Result<Vec<ResultRecord>, Error>,
    ) -> (reply: Result<Vec<Task>, McpError>)
        ensures
            exists|now: Seq<char>|
                time::is_now(now) && list_of(reply) == #[trigger] task_list(
                    in_flight.listed(),
                    finished,
                    self.ttl(),
                    now,
                ),
    {
        let now: String = time::now_text();
        self.list_tasks_at(in_flight, finished, now.as_str())
    }

    /// List, at `now`, tasks the backend knows about.
    pub fn list_tasks_at(
        &self,
        in_flight: &InFlight,
        finished: Result<Vec<ResultRecord>, Error>,
        now: &str,
    ) -> (reply: Result<Vec<Task>, McpError>)
        ensures
            list_of(reply) == task_list(in_flight.listed(), finished, self.ttl(), now@),
    {
        let records: Vec<ResultRecord> = match finished {
            Ok(records) => records,
            Err(error) => {
                let why: String = error.text();
                return Err(McpError::internal_error("result store list failed: ", why.as_str()));
            },
        };
        let ttl: Option<u64> = self.task_ttl_ms();
        let ghost running: Seq<TaskView> = running_tasks(in_flight.listed(), ttl, now@);
        let ghost done: Seq<TaskView> = finished_tasks(
            result_store::record_views(records@),
            ttl,
            now@,
        );
        let mut tasks: Vec<Task> = Vec::new();
        let mut next: usize = 0;
        while next < in_flight.len()
            invariant
                next <= in_flight.listed().len(),
                running == running_tasks(in_flight.listed(), ttl, now@),
                task_views(tasks@) =~= running.take(next as int),
            decreases in_flight.listed().len() - next,
        {
            let ghost before: Seq<Task> = tasks@;
            let (task_id, info) = in_flight.task(next);
            tasks.push(Task::working(task_id, info.message(), info.started_at_ms, ttl, now));
            assert(task_views(tasks@) =~= task_views(before).push(running[next as int]));
            next = next + 1;
        }
        let mut next: usize = 0;
        while next < records.len()
            invariant
                next <= records.len(),
                done == finished_tasks(result_store::record_views(records@), ttl, now@),
                task_views(tasks@) =~= running + done.take(next as int),
            decreases records.len() - next,
        {
            let ghost before: Seq<Task> = tasks@;
            let record: &ResultRecord = &records[next];
            tasks.push(
                Task::finished(
                    record.task_id.as_str(),
                    TaskStatus::from(record.status),
                    text::copy_text(&record.error),
                    record.completed_at_ms,
                    ttl,
                    now,
                ),
            );
            assert(task_views(tasks@) =~= task_views(before).push(done[next as int]));
            next = next + 1;
        }
        assert(task_views(tasks@) =~= running + done);
        Ok(tasks)
    }
}

} // verus!
