//! Helpers for consuming a live event-tracing stream.
//!
//! The operating system delivers trace events by invoking a callback once per
//! event, synchronously and serially, from a dedicated worker thread; the
//! memory backing an event is valid only for that single invocation.  This
//! crate turns that push-based, lifetime-constrained model into safe,
//! cancellable consumption:
//!
//! - [`event_record`] models one event as a transient view, an owned deep
//!   copy, or a serialized byte form; [`wire`] is the byte form, with a
//!   proved lossless round trip;
//! - [`status`] holds the error taxonomy shared by every component;
//! - [`protocol`] is the abstract single-slot delivery protocol that every
//!   bridge variant implements, with its at-most-one-in-flight, ordering and
//!   cancellation laws;
//! - [`rendezvous`], [`async_waiter`], [`stream_bridge`] and
//!   [`timeout_waiter`] are the four interchangeable bridge variants that
//!   move one event at a time from the dispatch thread to a consumer;
//! - [`processtrace`] is the lifecycle state machine that owns the native
//!   trace handle and tears the dispatch thread down without races.

pub mod async_waiter;
pub mod event_record;
pub mod processtrace;
pub mod protocol;
pub mod rendezvous;
pub mod status;
pub mod stream_bridge;
pub mod timeout_waiter;
pub mod wire;
