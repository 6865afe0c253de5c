//! The durable task backend.
//!
//! [`TaqubaTaskBackend`] answers the task requests of the protocol. It decides;
//! the queue, the stores and the clock are worked by its caller, who hands in
//! what was read and carries out what comes back.
use crate::audit::AuditLog;
use crate::error::Error;
use crate::location;
use crate::queue::QueueConfig;
use crate::result_store;
use crate::result_store::ResultStore;
use crate::text;
use crate::time;
use crate::worker;
use crate::worker::RetryPolicy;
use std::time::Duration;
use vstd::prelude::*;

verus! {

/// Configuration settings for a [`TaqubaTaskBackend`].
///
/// Constructed by [`TaqubaTaskBackendBuilder`]; users should not need to
/// build this directly.
#[derive(Debug, Clone, Copy)]
#[non_exhaustive]
pub struct TaqubaTaskBackendConfig {
    /// How long completed result blobs live in object storage before the
    /// reaper sweeps them.
    pub result_retention: Duration,
    /// How long audit log blobs live in object storage before the reaper
    /// sweeps them.
    pub audit_retention: Duration,
    /// Default retry policy for tool jobs.
    pub default_retry_policy: RetryPolicy,
    /// Number of concurrent worker tasks per tool queue.
    pub workers_per_tool: usize,
    /// How often the in-process reaper sweeps expired result + audit blobs.
    pub reaper_interval: Duration,
    /// Whether the in-process reaper runs at all. Disable to manage retention
    /// from a separate process.
    pub enable_reaper: bool,
    /// How long a request for a result waits for a still-running task before
    /// it is answered that there is none yet. Bounds the *total* time,
    /// including the brief reconcile with the result store.
    pub get_result_max_wait: Duration,
    /// How often that reconcile looks for the result blob, in the short window
    /// in which the job has ended and the blob may still be landing.
    pub get_result_poll_interval: Duration,
}

/// The configuration that is used unless it is changed: results are kept for a
/// day and audit entries for thirty, one worker runs per tool, the reaper sweeps
/// every minute, and a request for a result waits for half a minute, looking
/// for the blob four times a second.
pub open spec fn is_default_config(config: TaqubaTaskBackendConfig) -> bool {
    &&& time::duration_nanos(config.result_retention) == 86_400_000_000_000
    &&& time::duration_nanos(config.audit_retention) == 2_592_000_000_000_000
    &&& worker::is_exponential(config.default_retry_policy)
    &&& config.workers_per_tool == 1
    &&& time::duration_nanos(config.reaper_interval) == 60_000_000_000
    &&& config.enable_reaper
    &&& time::duration_nanos(config.get_result_max_wait) == 30_000_000_000
    &&& time::duration_nanos(config.get_result_poll_interval) == 250_000_000
}

impl Default for TaqubaTaskBackendConfig {
    fn default() -> (config: TaqubaTaskBackendConfig)
        ensures
            is_default_config(config),
    {
        TaqubaTaskBackendConfig {
            result_retention: Duration::from_secs(24 * 60 * 60),
            audit_retention: Duration::from_secs(30 * 24 * 60 * 60),
            default_retry_policy: RetryPolicy::default(),
            workers_per_tool: 1,
            reaper_interval: Duration::from_secs(60),
            enable_reaper: true,
            get_result_max_wait: Duration::from_secs(30),
            get_result_poll_interval: Duration::from_millis(250),
        }
    }
}

/// Durable backend for the task requests of the protocol.
///
/// Created via [`TaqubaTaskBackend::builder`]. `S` is the handle of the object
/// store and `C` the clock; the backend keeps both for its caller.
pub struct TaqubaTaskBackend<S, C> {
    /// The object store that everything is kept in.
    pub object_store: S,
    /// The time source, shared with the queue.
    pub clock: C,
    /// Where the queue keeps its state.
    pub queue_path: String,
    /// How the queue treats its jobs.
    pub queue_config: QueueConfig,
    /// Where the records of finished tasks are kept.
    pub result_store: ResultStore,
    /// Where the audit log is kept.
    pub audit_log: AuditLog,
    /// The settings.
    pub config: TaqubaTaskBackendConfig,
}

/// Builder for [`TaqubaTaskBackend`].
pub struct TaqubaTaskBackendBuilder<S, C> {
    /// The object store, once it is set.
    pub object_store: Option<S>,
    /// The path prefix, once it is set.
    pub prefix: Option<String>,
    /// The settings.
    pub config: TaqubaTaskBackendConfig,
    /// The time source, where one is set.
    pub clock: Option<C>,
}

impl<S, C> Default for TaqubaTaskBackendBuilder<S, C> {
    fn default() -> (builder: TaqubaTaskBackendBuilder<S, C>)
        ensures
            builder.object_store is None,
            builder.prefix is None,
            is_default_config(builder.config),
            builder.clock is None,
    {
        TaqubaTaskBackendBuilder {
            object_store: None,
            prefix: None,
            config: TaqubaTaskBackendConfig::default(),
            clock: None,
        }
    }
}

impl<S, C> TaqubaTaskBackendBuilder<S, C> {
    /// Set the object store the backend will use for both the underlying
    /// Taquba queue and the result / audit blob storage.
    pub fn object_store(self, store: S) -> (builder: Self)
        ensures
            builder == (TaqubaTaskBackendBuilder { object_store: Some(store), ..self }),
    {
        TaqubaTaskBackendBuilder { object_store: Some(store), ..self }
    }

    /// Set the path prefix under which all state lives. The backend writes:
    ///
    /// - `<prefix>/queue/...`: the Taquba queue's store.
    /// - `<prefix>/results/<task_id>.json`: completed task results.
    /// - `<prefix>/audit/<ulid>.json`: audit entries.
    pub fn prefix(self, prefix: String) -> (builder: Self)
        ensures
            builder == (TaqubaTaskBackendBuilder { prefix: Some(prefix), ..self }),
    {
        TaqubaTaskBackendBuilder { prefix: Some(prefix), ..self }
    }

    /// Override the full configuration. Most users will prefer the
    /// individual setters below.
    pub fn config(self, config: TaqubaTaskBackendConfig) -> (builder: Self)
        ensures
            builder == (TaqubaTaskBackendBuilder { config, ..self }),
    {
        TaqubaTaskBackendBuilder { config, ..self }
    }

    /// Set how long completed result blobs are retained.
    pub fn result_retention(self, retention: Duration) -> (builder: Self)
        ensures
            builder == (TaqubaTaskBackendBuilder {
                config: TaqubaTaskBackendConfig { result_retention: retention, ..self.config },
                ..self
            }),
    {
        let config = TaqubaTaskBackendConfig { result_retention: retention, ..self.config };
        TaqubaTaskBackendBuilder { config, ..self }
    }

    /// Set how long audit log blobs are retained.
    pub fn audit_retention(self, retention: Duration) -> (builder: Self)
        ensures
            builder == (TaqubaTaskBackendBuilder {
                config: TaqubaTaskBackendConfig { audit_retention: retention, ..self.config },
                ..self
            }),
    {
        let config = TaqubaTaskBackendConfig { audit_retention: retention, ..self.config };
        TaqubaTaskBackendBuilder { config, ..self }
    }

    /// Set the default retry policy applied to tool jobs.
    pub fn default_retry_policy(self, policy: RetryPolicy) -> (builder: Self)
        ensures
            builder == (TaqubaTaskBackendBuilder {
                config: TaqubaTaskBackendConfig { default_retry_policy: policy, ..self.config },
                ..self
            }),
    {
        let config = TaqubaTaskBackendConfig { default_retry_policy: policy, ..self.config };
        TaqubaTaskBackendBuilder { config, ..self }
    }

    /// Set the number of concurrent workers per tool queue.
    pub fn workers_per_tool(self, n: usize) -> (builder: Self)
        ensures
            builder == (TaqubaTaskBackendBuilder {
                config: TaqubaTaskBackendConfig { workers_per_tool: n, ..self.config },
                ..self
            }),
    {
        let config = TaqubaTaskBackendConfig { workers_per_tool: n, ..self.config };
        TaqubaTaskBackendBuilder { config, ..self }
    }

    /// Disable the in-process reaper. Use when retention is managed
    /// externally (e.g. by an object-store lifecycle policy or a separate
    /// reaper process).
    pub fn disable_reaper(self) -> (builder: Self)
        ensures
            builder == (TaqubaTaskBackendBuilder {
                config: TaqubaTaskBackendConfig { enable_reaper: false, ..self.config },
                ..self
            }),
    {
        let config = TaqubaTaskBackendConfig { enable_reaper: false, ..self.config };
        TaqubaTaskBackendBuilder { config, ..self }
    }

    /// Override the time source. The queue and the audit, result and in-flight
    /// timestamps share one view of "now".
    pub fn clock(self, clock: C) -> (builder: Self)
        ensures
            builder == (TaqubaTaskBackendBuilder { clock: Some(clock), ..self }),
    {
        TaqubaTaskBackendBuilder { clock: Some(clock), ..self }
    }

    /// Finalize the backend. Where no clock was set, `system_clock` is used.
    ///
    /// A builder without an object store, or without a prefix, is refused.
    pub fn build(self, system_clock: C) -> (built: Result<TaqubaTaskBackend<S, C>, Error>)
        ensures
            match built {
                Ok(backend) => {
                    &&& self.object_store == Some(backend.object_store)
                    &&& self.prefix matches Some(prefix) && backend.is_under(prefix@)
                    &&& backend.config == self.config
                    &&& backend.clock == match self.clock {
                        Some(clock) => clock,
                        None => system_clock,
                    }
                },
                Err(error) => {
                    ||| self.object_store is None && (error matches Error::Configuration(message)
                        && message@ == "object_store is required"@)
                    ||| self.object_store is Some && self.prefix is None && (
                    error matches Error::Configuration(message) && message@
                        == "prefix is required"@)
                },
            },
    {
        let object_store: S = match self.object_store {
            Some(store) => store,
            None => return Err(Error::Configuration("object_store is required".to_owned())),
        };
        let prefix_str: String = match self.prefix {
            Some(prefix) => prefix,
            None => return Err(Error::Configuration("prefix is required".to_owned())),
        };
        let clock: C = match self.clock {
            Some(clock) => clock,
            None => system_clock,
        };
        let trimmed: String = text::trim_end_slashes(prefix_str.as_str());
        let queue_path: String = text::join(trimmed.as_str(), "/queue");
        let queue_config: QueueConfig = self.config.default_retry_policy.to_queue_config();
        Ok(
            TaqubaTaskBackend {
                object_store,
                clock,
                queue_path,
                queue_config,
                result_store: ResultStore::new(location::parse_path(prefix_str.as_str())),
                audit_log: AuditLog::new(location::parse_path(prefix_str.as_str())),
                config: self.config,
            },
        )
    }
}

impl<S, C> TaqubaTaskBackend<S, C> {
    /// Whether the backend keeps its state under `prefix`, with the queue
    /// treating jobs as the configured retry policy says.
    pub open spec fn is_under(self, prefix: Seq<char>) -> bool {
        &&& self.queue_path@ == text::without_trailing_slashes(prefix) + "/queue"@
        &&& location::path_text(self.result_store.prefix) == location::path_named(prefix)
        &&& location::path_text(self.audit_log.prefix) == location::path_named(prefix)
        &&& self.queue_config == (QueueConfig {
            max_attempts: self.config.default_retry_policy.max_attempts,
            retry_backoff_base: self.config.default_retry_policy.initial_backoff,
            retry_backoff_max: self.config.default_retry_policy.max_backoff,
            default_priority: 1_000,
        })
    }

    /// The time to live that tasks report.
    pub open spec fn ttl(self) -> Option<u64> {
        time::ttl(self.config.result_retention)
    }

    /// Where the record of a task lies.
    pub open spec fn record_path(self, task_id: Seq<char>) -> Seq<char> {
        result_store::record_path(location::path_text(self.result_store.prefix), task_id)
    }

    /// Start configuring a backend.
    pub fn builder() -> (builder: TaqubaTaskBackendBuilder<S, C>)
        ensures
            builder.object_store is None,
            builder.prefix is None,
            is_default_config(builder.config),
            builder.clock is None,
    {
        TaqubaTaskBackendBuilder::default()
    }

    /// The settings.
    pub fn config(&self) -> (config: &TaqubaTaskBackendConfig)
        ensures
            *config == self.config,
    {
        &self.config
    }

    /// The time to live that tasks report.
    pub fn task_ttl_ms(&self) -> (ttl: Option<u64>)
        ensures
            ttl == self.ttl(),
    {
        time::ttl_ms(self.config.result_retention)
    }
}

} // verus!
