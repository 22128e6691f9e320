//! Bridging layer between an event-driven native game-services client and a
//! host application.
//!
//! The native client reports results in two ways: events that fire whenever
//! something of a given category happens, and one-shot operations whose
//! completion is announced once, at an unknown later time, on a channel shared
//! by every operation of the same category. This crate holds the decisions of
//! the bridge as state machines with proved contracts:
//!
//! * [`callback`]: subscriptions to event categories and their disposable handles;
//! * [`request`]: the correlation of one native operation with one result;
//! * [`deadline`]: a request raced against a timer, with the cancellation of
//!   what fails;
//! * [`progress`]: the polling loop that follows a long-running upload;
//! * [`error`]: the error taxonomy, and the error for each native result code;
//! * [`steamuser`], [`steamugc`], [`consts`]: the values that cross the bridge.
//!
//! Nothing here performs I/O. A caller drives each machine: it hands over the
//! event that occurred and performs the action that the machine answers with.

pub mod callback;
pub mod consts;
pub mod deadline;
pub mod error;
pub mod progress;
pub mod request;
pub mod steamugc;
pub mod steamuser;
