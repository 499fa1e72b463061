//! The state machines behind a set of thread-sharing streaming elements: the
//! bounded data queue that passes buffers and events from one task to another,
//! and the TCP client source.

pub mod caps;
pub mod dataqueue;
pub mod item;
pub mod message;
pub mod pad_calls;
pub mod pad_handler;
pub mod queue_calls;
pub mod queue_laws;
pub mod settings;
pub mod source_calls;
pub mod source_laws;
pub mod stream_id;
pub mod sums;
pub mod tcpclientsrc;
pub mod text;
pub mod wake;
