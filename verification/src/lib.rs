//! Bridge between a synchronous host scripting environment and an
//! asynchronous guest script engine running on its own thread.
//!
//! The crate holds the shared runtime state that both sides touch (the task
//! queue, the one-shot task waiters, the bounded user channels, the id
//! allocator and the lifecycle event slot) together with the lifecycle
//! state machine that decides when a generation of the guest engine starts,
//! restarts or ends.

pub mod json;
pub mod laws;
pub mod runtime;
pub mod supervisor;
