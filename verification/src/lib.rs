//! A verified core for idiomatic bindings to the libxev event loop.
//!
//! The C library itself is reached through raw handles: each object of the
//! loop (the loop, its watchers, completions, the thread pool) is held here by
//! the address of its C storage. The logic that the bindings add around the C
//! calls lives in this crate: decoding of status codes and transfer results,
//! the raw values of the C enumerations, ownership of the callback that backs
//! an operation, one-shot delivery of owned buffers and the task batches of
//! the thread pool.

pub mod event_loop;
pub mod file;
pub mod once;
pub mod status;
pub mod threadpool;
pub mod watcher;
