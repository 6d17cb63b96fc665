//! The execution core of an actor runtime: it drives a single actor
//! through its lifecycle, multiplexing direct messages, scheduled delay
//! and interval work and bridged streams into one ordered run of handler
//! invocations, letting read-like handlers run concurrently while any
//! write-like handler runs in exclusive isolation.
//!
//! The transport (mailbox channels, timers, task spawning) and the
//! handler closures are owned by the unverified runtime around this
//! crate; the core decides, the runtime performs.

pub mod context;
pub mod driver;
pub mod handle;
pub mod laws;
pub mod message;
pub mod registry;
pub mod tasks;
