//! Scheduling core of a work-stealing task runtime.
//!
//! The library holds the decisions of the runtime: how a processor buffers and
//! hands out tasks, how the outcomes of steal attempts combine, how a worker
//! escalates from yielding to reactor-poll duty, how the coordinator ramps its
//! tick, and how the shared scheduler state hands processors and the single
//! polling role between workers.
pub mod coordinator;
pub mod deque;
pub mod machine;
pub mod processor;
pub mod sched;
pub mod steal;
