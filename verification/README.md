# threadshare

The verified core of two pieces of a thread-sharing streaming plugin.

- `src/dataqueue.rs` is a bounded queue of buffers and events between two tasks;
  `src/queue_laws.rs` states what holds of it over any sequence of calls.
- `src/tcpclientsrc.rs`, `src/pad_handler.rs` and `src/settings.rs` are the decisions of
  a TCP client source: its life cycle, its source pad and its properties;
  `src/source_laws.rs` states what holds of them over several calls.

`src/` is verified with Verus. It trusts three outside functions: the one that makes a
one-shot channel (`src/wake.rs`), the one that draws random numbers
(`src/stream_id.rs`) and the one that clones a shared pointer (`src/caps.rs`).

`app/` connects the library to GStreamer, to TCP and to the runtime that shares threads
among elements, which it takes through the traits of `app/runtime.rs`.
