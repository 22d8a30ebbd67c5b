//! Capture and streaming of class-load and method entry/exit events of a
//! managed runtime.
//!
//! A hook layer is loaded into the monitored program. It turns the runtime's
//! callbacks into envelopes, drops those that the filter policy does not
//! list, and sends the rest to an observer in another process. The observer
//! relays them into its consumer loop, which appends them to an event log in
//! the order in which they were produced.
//!
//! This crate holds the rules of that pipeline:
//!
//! - [`event`]: the envelopes.
//! - [`policy`]: the filter policy and how it is built from its source.
//! - [`names`]: class descriptors and dotted class names.
//! - [`hook`]: what each runtime callback sends, if anything.
//! - [`attach`]: the attach argument and the order of attaching.
//! - [`relay`]: handing envelopes on until `Unload`, and what holds of a
//!   session from end to end.
//! - [`session`]: the consumer loop with its event log and status.
//! - [`display`]: text for showing an event.
//!
//! The calls into the runtime, the transport between the processes, the
//! launch of the monitored program and the drawing are the caller's.

pub mod attach;
pub mod display;
pub mod event;
pub mod hook;
pub mod names;
pub mod policy;
pub mod relay;
pub mod session;
mod text;
