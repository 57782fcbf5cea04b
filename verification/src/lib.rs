//! Credit-based flow control for a duplex event stream.
//!
//! A consumer grants the producing server a number of permits, one per event
//! the server may deliver, and tops the grant up in batches as it finishes
//! earlier events. The crate holds the decisions of both halves of the
//! stream, the bounded hand-off between them, and the laws that tie them
//! together; performing reads and writes is left to the caller.

pub mod error;
pub mod credit;
pub mod message;
pub mod coordinator;
pub mod handoff;
pub mod consumer;
pub mod session;
