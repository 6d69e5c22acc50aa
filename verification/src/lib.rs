//! Composable wrappers that attach bounded-time and externally triggered
//! cancellation semantics to an abstract, suspendable computation.
//!
//! The crate models cooperative scheduling over a discrete monotonic clock:
//! a computation is polled at explicit instants, and every wrapper races the
//! computation against an interrupt source (a one-shot signal or a timer)
//! with a deterministic completion-wins tie-break.

pub mod awaitable;
pub mod cancel;
pub mod component;
pub mod configuration;
pub mod databases;
pub mod error;
pub mod ext;
pub mod flatten_interrupt;
pub mod flatten_interrupts;
pub mod poll;
pub mod singleton;
pub mod task;
pub mod timeout;
