//! What a backend is built from, and what single operations give back, setting by
//! setting and case by case.
use crate::backend;
use crate::backend::{TaqubaTaskBackend, TaqubaTaskBackendBuilder, TaqubaTaskBackendConfig};
use crate::cancel::CancelStep;
use crate::error::Error;
use crate::info::InfoStep;
use crate::location;
use crate::outcome::ResultStep;
use crate::pointer;
use crate::pointer::TaskPointer;
use crate::protocol;
use crate::protocol::McpErrorKind;
use crate::queue::QueueConfig;
use crate::result_store::{BlobRead, ResultRecord, ResultStore};
use crate::text;
use crate::time;
use crate::worker;
use crate::worker::{Claim, Pool, RetryPolicy, ToolInfo, WorkerSlot};
use rmcp::model::ErrorData;
use std::time::Duration;
use vstd::prelude::*;

verus! {

/// A backend whose state lies under a prefix hands the configured retry policy to
/// its queue setting by setting: as many attempts, the first wait for the base of
/// the backoff and the longest for its bound.
pub proof fn queue_carries_the_policy_out<S, C>(backend: TaqubaTaskBackend<S, C>, prefix: Seq<char>)
    requires
        backend.is_under(prefix),
    ensures
        backend.queue_config.max_attempts == backend.config.default_retry_policy.max_attempts,
        backend.queue_config.retry_backoff_base
            == backend.config.default_retry_policy.initial_backoff,
        backend.queue_config.retry_backoff_max == backend.config.default_retry_policy.max_backoff,
        backend.queue_config.default_priority == 1_000,
{
}

/// A backend keeps its records, its log and its queue under the prefix, whatever
/// number of `/` the prefix ends in.
pub proof fn state_is_kept_under_the_prefix<S, C>(
    backend: TaqubaTaskBackend<S, C>,
    prefix: Seq<char>,
    shorter: Seq<char>,
)
    requires
        backend.is_under(prefix),
    ensures
        backend.queue_path@ == text::without_trailing_slashes(prefix) + "/queue"@,
        location::path_text(backend.result_store.prefix) == location::path_named(prefix),
        location::path_text(backend.audit_log.prefix) == location::path_named(prefix),
        text::without_trailing_slashes(shorter) == text::without_trailing_slashes(prefix) ==> {
            &&& backend.queue_path@ == text::without_trailing_slashes(shorter) + "/queue"@
            &&& location::path_text(backend.result_store.prefix) == location::path_named(shorter)
            &&& location::path_text(backend.audit_log.prefix) == location::path_named(shorter)
        },
{
    location::trailing_slashes_do_not_matter(prefix);
    location::trailing_slashes_do_not_matter(shorter);
}

/// A builder builds exactly where it has an object store and a prefix. What it
/// builds has that store, the clock that was set or else the system's, the
/// settings as they were set, and a queue that retries as they say.
pub proof fn built_backend_has_its_settings<S, C>(
    builder: TaqubaTaskBackendBuilder<S, C>,
    system_clock: C,
    built: Result<TaqubaTaskBackend<S, C>, Error>,
)
    requires
        call_ensures(TaqubaTaskBackendBuilder::<S, C>::build, (builder, system_clock), built),
    ensures
        built is Ok <==> builder.object_store is Some && builder.prefix is Some,
        built matches Ok(backend) ==> {
            &&& builder.object_store == Some(backend.object_store)
            &&& builder.clock is None ==> backend.clock == system_clock
            &&& builder.clock matches Some(clock) ==> backend.clock == clock
            &&& backend.config == builder.config
            &&& backend.queue_config.max_attempts
                == builder.config.default_retry_policy.max_attempts
            &&& backend.queue_config.retry_backoff_base
                == builder.config.default_retry_policy.initial_backoff
            &&& backend.queue_config.retry_backoff_max
                == builder.config.default_retry_policy.max_backoff
            &&& backend.queue_config.default_priority == 1_000
            &&& builder.prefix matches Some(prefix)
            &&& backend.queue_path@ == text::without_trailing_slashes(prefix@) + "/queue"@
            &&& location::path_text(backend.result_store.prefix) == location::path_named(prefix@)
            &&& location::path_text(backend.audit_log.prefix) == location::path_named(prefix@)
        },
        built matches Err(error) ==> {
            &&& error matches Error::Configuration(message)
            &&& builder.object_store is None ==> message@ == "object_store is required"@
            &&& builder.object_store is Some ==> message@ == "prefix is required"@
        },
{
}

/// A backend that was built without changing a setting makes five attempts, half
/// a second to a minute apart.
pub proof fn unchanged_backend_retries_as_usual<S, C>(
    builder: TaqubaTaskBackendBuilder<S, C>,
    system_clock: C,
    built: Result<TaqubaTaskBackend<S, C>, Error>,
)
    requires
        backend::is_default_config(builder.config),
        call_ensures(TaqubaTaskBackendBuilder::<S, C>::build, (builder, system_clock), built),
    ensures
        built matches Ok(backend) ==> {
            &&& backend.queue_config.max_attempts == 5
            &&& time::duration_nanos(backend.queue_config.retry_backoff_base) == 500_000_000
            &&& time::duration_nanos(backend.queue_config.retry_backoff_max) == 60_000_000_000
        },
{
}

/// Unless it is changed, the configuration keeps results for a day and entries for
/// thirty, runs one worker per tool, sweeps every minute, and has a request wait
/// for half a minute, looking four times a second.
pub proof fn default_settings_are_these(config: TaqubaTaskBackendConfig)
    requires
        backend::is_default_config(config),
    ensures
        time::duration_nanos(config.result_retention) == 24 * 60 * 60 * 1_000_000_000,
        time::duration_nanos(config.audit_retention) == 30 * time::duration_nanos(
            config.result_retention,
        ),
        config.default_retry_policy.max_attempts == 5,
        time::duration_nanos(config.default_retry_policy.initial_backoff) == 500_000_000,
        time::duration_nanos(config.default_retry_policy.max_backoff) == 60_000_000_000,
        config.workers_per_tool == 1,
        time::duration_nanos(config.reaper_interval) == 60_000_000_000,
        config.enable_reaper,
        time::duration_nanos(config.get_result_max_wait) == 30_000_000_000,
        4 * time::duration_nanos(config.get_result_poll_interval) == 1_000_000_000,
{
}

/// The time to live that a backend reports is how long it keeps a result, in
/// whole milliseconds.
pub proof fn reported_ttl_is_the_retention<S, C>(backend: TaqubaTaskBackend<S, C>)
    ensures
        backend.ttl() is Some <==> time::duration_nanos(backend.config.result_retention)
            / 1_000_000 <= u64::MAX,
        backend.ttl() matches Some(millis) ==> millis == time::duration_nanos(
            backend.config.result_retention,
        ) / 1_000_000,
{
}

/// The record of a task lies in the results directory under the prefix of the
/// backend's result store.
pub proof fn record_is_read_where_it_is_kept<S, C>(
    backend: TaqubaTaskBackend<S, C>,
    task_id: Seq<char>,
)
    ensures
        location::path_text(backend.result_store.prefix).len() > 0 ==> backend.record_path(task_id)
            == location::path_text(backend.result_store.prefix) + seq!['/'] + "results"@
            + seq!['/'] + location::segment(task_id + ".json"@),
        location::path_text(backend.result_store.prefix).len() == 0 ==> backend.record_path(
            task_id,
        ) == "results"@ + seq!['/'] + location::segment(task_id + ".json"@),
{
    crate::keeping::records_and_entries_have_their_directories(
        location::path_text(backend.result_store.prefix),
        task_id,
        0,
    );
}

/// Each setter changes its own setting, to what it is given, and no other.
pub proof fn setters_change_their_own_setting<S, C>(
    before: TaqubaTaskBackendBuilder<S, C>,
    retention: Duration,
    policy: RetryPolicy,
    workers: usize,
    with_results: TaqubaTaskBackendBuilder<S, C>,
    with_audit: TaqubaTaskBackendBuilder<S, C>,
    with_policy: TaqubaTaskBackendBuilder<S, C>,
    with_workers: TaqubaTaskBackendBuilder<S, C>,
    without_reaper: TaqubaTaskBackendBuilder<S, C>,
)
    requires
        call_ensures(
            TaqubaTaskBackendBuilder::<S, C>::result_retention,
            (before, retention),
            with_results,
        ),
        call_ensures(
            TaqubaTaskBackendBuilder::<S, C>::audit_retention,
            (before, retention),
            with_audit,
        ),
        call_ensures(
            TaqubaTaskBackendBuilder::<S, C>::default_retry_policy,
            (before, policy),
            with_policy,
        ),
        call_ensures(
            TaqubaTaskBackendBuilder::<S, C>::workers_per_tool,
            (before, workers),
            with_workers,
        ),
        call_ensures(
            TaqubaTaskBackendBuilder::<S, C>::disable_reaper,
            (before,),
            without_reaper,
        ),
    ensures
        with_results.config.result_retention == retention,
        with_results.config == (TaqubaTaskBackendConfig {
            result_retention: retention,
            ..before.config
        }),
        with_audit.config.audit_retention == retention,
        with_audit.config == (TaqubaTaskBackendConfig {
            audit_retention: retention,
            ..before.config
        }),
        with_policy.config.default_retry_policy == policy,
        with_policy.config == (TaqubaTaskBackendConfig {
            default_retry_policy: policy,
            ..before.config
        }),
        with_workers.config.workers_per_tool == workers,
        with_workers.config == (TaqubaTaskBackendConfig {
            workers_per_tool: workers,
            ..before.config
        }),
        !without_reaper.config.enable_reaper,
        without_reaper.config == (TaqubaTaskBackendConfig {
            enable_reaper: false,
            ..before.config
        }),
        with_results.object_store == before.object_store && with_results.prefix == before.prefix
            && with_results.clock == before.clock,
        with_audit.object_store == before.object_store && with_audit.prefix == before.prefix
            && with_audit.clock == before.clock,
        with_policy.object_store == before.object_store && with_policy.prefix == before.prefix
            && with_policy.clock == before.clock,
        with_workers.object_store == before.object_store && with_workers.prefix == before.prefix
            && with_workers.clock == before.clock,
        without_reaper.object_store == before.object_store && without_reaper.prefix
            == before.prefix && without_reaper.clock == before.clock,
{
}

/// What is handed to a builder is what it holds, and nothing else of it changes.
pub proof fn builder_holds_what_it_is_given<S, C>(
    before: TaqubaTaskBackendBuilder<S, C>,
    store: S,
    prefix: String,
    config: TaqubaTaskBackendConfig,
    clock: C,
    with_store: TaqubaTaskBackendBuilder<S, C>,
    with_prefix: TaqubaTaskBackendBuilder<S, C>,
    with_config: TaqubaTaskBackendBuilder<S, C>,
    with_clock: TaqubaTaskBackendBuilder<S, C>,
)
    requires
        call_ensures(
            TaqubaTaskBackendBuilder::<S, C>::object_store,
            (before, store),
            with_store,
        ),
        call_ensures(TaqubaTaskBackendBuilder::<S, C>::prefix, (before, prefix), with_prefix),
        call_ensures(TaqubaTaskBackendBuilder::<S, C>::config, (before, config), with_config),
        call_ensures(TaqubaTaskBackendBuilder::<S, C>::clock, (before, clock), with_clock),
    ensures
        with_store.object_store == Some(store) && with_store.prefix == before.prefix
            && with_store.config == before.config && with_store.clock == before.clock,
        with_prefix.prefix == Some(prefix) && with_prefix.object_store == before.object_store
            && with_prefix.config == before.config && with_prefix.clock == before.clock,
        with_config.config == config && with_config.object_store == before.object_store
            && with_config.prefix == before.prefix && with_config.clock == before.clock,
        with_clock.clock == Some(clock) && with_clock.object_store == before.object_store
            && with_clock.prefix == before.prefix && with_clock.config == before.config,
{
}

/// A policy that never retries makes one attempt and waits for none. Each setter
/// of a policy changes its own part, and the queue is told of all three.
pub proof fn policies_are_as_they_are_set(
    never: RetryPolicy,
    before: RetryPolicy,
    attempts: u32,
    wait: Duration,
    with_attempts: RetryPolicy,
    with_first: RetryPolicy,
    with_longest: RetryPolicy,
    told: QueueConfig,
)
    requires
        call_ensures(RetryPolicy::never, (), never),
        call_ensures(RetryPolicy::max_attempts, (before, attempts), with_attempts),
        call_ensures(RetryPolicy::initial_backoff, (before, wait), with_first),
        call_ensures(RetryPolicy::max_backoff, (before, wait), with_longest),
        call_ensures(RetryPolicy::to_queue_config, (&before,), told),
    ensures
        never.max_attempts == 1,
        time::duration_nanos(never.initial_backoff) == 0,
        time::duration_nanos(never.max_backoff) == 0,
        with_attempts.max_attempts == attempts,
        with_attempts.initial_backoff == before.initial_backoff,
        with_attempts.max_backoff == before.max_backoff,
        with_first.max_attempts == before.max_attempts,
        with_first.initial_backoff == wait,
        with_first.max_backoff == before.max_backoff,
        with_longest.max_attempts == before.max_attempts,
        with_longest.initial_backoff == before.initial_backoff,
        with_longest.max_backoff == wait,
        told.max_attempts == before.max_attempts,
        told.retry_backoff_base == before.initial_backoff,
        told.retry_backoff_max == before.max_backoff,
        told.default_priority == 1_000,
{
}

/// Every request begins with the task that it asks for: a status with the task's
/// pointer, a result with a wait for its job, as long as configured, and a
/// cancellation with a look at its job.
pub proof fn requests_begin_with_their_task<S, C>(
    backend: TaqubaTaskBackend<S, C>,
    task_id: &str,
    status: InfoStep,
    result: ResultStep,
    cancellation: CancelStep,
)
    requires
        call_ensures(TaqubaTaskBackend::<S, C>::get_task_info, (&backend, task_id), status),
        call_ensures(TaqubaTaskBackend::<S, C>::get_task_result, (&backend, task_id), result),
        call_ensures(TaqubaTaskBackend::<S, C>::cancel_task, (&backend, task_id), cancellation),
    ensures
        status matches InfoStep::ReadPointer(key) && key@ == vstd::utf8::encode_utf8(
            "mcp:task:"@ + task_id@,
        ),
        result matches ResultStep::Wait { task_id: id, max_wait } && id@ == task_id@ && max_wait
            == backend.config.get_result_max_wait,
        cancellation matches CancelStep::ReadJob(id) && id@ == task_id@,
{
}

/// After a wait that went well the record of the task is read; one that failed is
/// told.
pub proof fn waiting_ends_with_the_record<S, C>(
    backend: TaqubaTaskBackend<S, C>,
    task_id: &str,
    waited: Result<(), String>,
    step: ResultStep,
)
    requires
        call_ensures(
            TaqubaTaskBackend::<S, C>::result_after_wait,
            (&backend, task_id, waited),
            step,
        ),
    ensures
        waited is Ok ==> (step matches ResultStep::ReadRecord(key) && location::path_text(key)
            == backend.record_path(task_id@)),
        waited matches Err(why) ==> {
            &&& step matches ResultStep::Reply(Err(error))
            &&& error.kind == McpErrorKind::InternalError
            &&& error.message@ == "wait_for_completion failed: "@ + why@
        },
{
}

/// A blob that is there gives the record that it holds; one that is not there
/// gives none; any other outcome is an error, told apart by where it comes from.
pub proof fn blob_gives_its_record(read: BlobRead, found: Result<Option<ResultRecord>, Error>)
    requires
        call_ensures(ResultStore::get, (read,), found),
    ensures
        read is NotFound <==> found matches Ok(None),
        read matches BlobRead::Read(Ok(record)) ==> found == Ok::<Option<ResultRecord>, Error>(
            Some(record),
        ),
        read matches BlobRead::Read(Err(why)) ==> found == Err::<Option<ResultRecord>, Error>(
            Error::Serde(why),
        ),
        read matches BlobRead::Failed(why) ==> found == Err::<Option<ResultRecord>, Error>(
            Error::ObjectStore(why),
        ),
{
}

/// A value that is there gives the pointer that it holds; one that is not there
/// gives none; any other outcome is an error, told apart by where it comes from.
pub proof fn value_gives_its_pointer(
    fetched: Result<Option<Result<TaskPointer, String>>, String>,
    found: Result<Option<TaskPointer>, Error>,
)
    requires
        call_ensures(pointer::read, (fetched,), found),
    ensures
        fetched matches Ok(None) <==> found matches Ok(None),
        fetched matches Ok(Some(Ok(held))) ==> found == Ok::<Option<TaskPointer>, Error>(
            Some(held),
        ),
        fetched matches Ok(Some(Err(why))) ==> found == Err::<Option<TaskPointer>, Error>(
            Error::Serde(why),
        ),
        fetched matches Err(why) ==> found == Err::<Option<TaskPointer>, Error>(
            Error::Taquba(why),
        ),
{
}

/// The pointer of a task that was acknowledged is written under the task's own
/// key, as it was encoded; one that could not be encoded is not written.
pub proof fn pointer_is_written_under_its_task(
    task_id: &str,
    encoded: Result<Vec<u8>, String>,
    writes: Vec<(Vec<u8>, Vec<u8>)>,
)
    requires
        call_ensures(worker::pointer_effects, (task_id, encoded), writes),
    ensures
        encoded matches Ok(bytes) ==> writes.len() == 1 && writes[0].0@
            == vstd::utf8::encode_utf8("mcp:task:"@ + task_id@) && writes[0].1@ == bytes@,
        encoded is Err ==> writes.len() == 0,
{
}

/// A worker asks the queue of its own tool, with the lease that it is given, and
/// waits for five seconds.
pub proof fn worker_asks_for_its_tool(slot: WorkerSlot, lease: Duration, claim: Claim)
    requires
        call_ensures(worker::next_claim, (&slot, lease), claim),
    ensures
        claim.queue@ == slot.tool@,
        claim.lease == lease,
        time::duration_nanos(claim.wait) == 5_000_000_000,
{
}

/// A listing of tools that went well is never refused; one that failed is a
/// configuration error that says why.
pub proof fn failed_discovery_says_why(
    listed: Result<Vec<ToolInfo>, ErrorData>,
    tools: Result<Vec<String>, Error>,
)
    requires
        call_ensures(worker::discover_task_tools, (listed,), tools),
    ensures
        tools is Ok <==> listed is Ok,
        listed matches Ok(offered) ==> (tools matches Ok(names) && text::texts(names@)
            == worker::task_tools(offered@)),
        listed matches Err(failure) ==> {
            &&& tools matches Err(Error::Configuration(message))
            &&& message@ == "list_tools failed during worker bootstrap: "@
                + protocol::tool_error_message(failure)
        },
{
}

/// A pool that runs has every worker of every tool, numbered from zero, and the
/// reaper where it is enabled; a pool that is idle would have had nothing to run.
pub proof fn pool_runs_every_worker(
    tools: Vec<String>,
    per_tool: usize,
    enable_reaper: bool,
    pool: Pool,
    tool: int,
    number: int,
)
    requires
        call_ensures(worker::plan_workers, (&tools, per_tool, enable_reaper), pool),
    ensures
        pool is Idle <==> tools.len() == 0 || (per_tool == 0 && !enable_reaper),
        pool matches Pool::Running { workers, reaper } ==> {
            &&& reaper == enable_reaper
            &&& workers.len() == tools.len() * per_tool
            &&& 0 <= tool < tools.len() && 0 <= number < per_tool ==> {
                &&& 0 <= tool * per_tool + number < workers.len()
                &&& workers[tool * per_tool + number].tool@ == tools[tool]@
                &&& workers[tool * per_tool + number].worker_index == number
            }
        },
{
    let names = text::texts(tools@);
    crate::workings::every_tool_has_its_workers(names, per_tool as nat, tool, number);
    match pool {
        Pool::Running { workers, reaper } => {
            let slots = worker::slot_views(workers@);
            assert(slots.len() == workers.len());
            if 0 <= tool < tools.len() && 0 <= number < per_tool {
                let at = tool * per_tool + number;
                assert(slots[at] == (workers[at].tool@, workers[at].worker_index));
                assert(names[tool] == tools[tool]@);
            }
        },
        Pool::Idle => {},
    }
}

} // verus!
