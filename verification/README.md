# taquba-mcp

Durable tasks for a Model Context Protocol server, on top of the Taquba task
queue. A tool call that is made as a task becomes a queue job; task state, retry
attempts and results survive a restart of the process.

## Layout

- `src/` is the library. It decides: what a client is told of a task, what is
  written and in which order, when a failure is retried, where a record lies and
  when it expires. Every function states what it does in its contract, and Verus
  proves it, except for the short wrappers around calls into other crates and the
  standard library: these are marked `external_body` or `assume_specification`,
  and what they claim is taken on trust. `src/laws.rs` states what holds of all of
  it together.
- `app/` drives the library: the queue, the object store, the clock, the worker
  pool and the transports.
- `tests/` runs the library, on values and on a real queue with an in-memory
  store.

## On-store layout

```
<prefix>/queue/...              # the queue's own store
<prefix>/results/<task_id>.json # records of finished tasks
<prefix>/audit/<ulid>.json      # one blob per audit event
```

## How a task ends

A worker writes the result blob first and settles the job last. For a completed
or a cooperatively cancelled task the settlement is an ack that commits a small
pointer in the same transaction; readers trust the pointer, so a task whose job
is still claimed is never reported as finished. A task that failed for good is
dead-lettered, and one that was cancelled while it waited is removed from the
queue; these carry no pointer and are read back from the blob.
