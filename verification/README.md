# libxev (verified core)

Bindings to the [libxev](https://github.com/mitchellh/libxev) event loop,
split in two:

- `src/` — the library, verified with Verus. It holds every C object by the
  address of its storage and makes the decisions around the C calls: status
  codes (`status`), run modes and the loop handle (`event_loop`), callback
  actions, completion states, completions and watcher handles (`watcher`),
  the file watcher's descriptor word and owned-buffer results (`file`),
  one-shot delivery of callbacks and buffers (`once`), and the thread pool's
  configuration steps, tasks and batches (`threadpool`).
- `app/` — the unverified edge: C storage, the FFI calls into `libxev_sys`,
  the `extern "C"` trampolines that run Rust closures, `Drop`, and a small
  program that runs an empty loop.
- `tests/` — tests of the library on concrete values.
