//! The lifecycle of a rendering surface and of the graphics resources that
//! depend on it, as a state machine.
//!
//! A native window may appear, vanish and come back while a program runs. The
//! machine decides what has to be made, kept or thrown away at each such
//! turn. It performs nothing itself: it hands out requests for the capability
//! provider and takes the provider's replies.
//!
//! - [`resource`]: handles and descriptors, as plain values.
//! - [`provider`]: the requests, the replies and the steps of an operation.
//! - [`stage`]: the stage of the lifecycle and the resources of the ready stage.
//! - [`lifecycle`]: the state machine, as functions on states.
//! - [`context`]: the state machine as a value to hold and to feed.
//! - [`event_loop`]: from the events of the host to operations.
//! - [`laws`]: what holds of the machine whatever is fed to it.

pub mod provider;
pub mod resource;
pub mod stage;
pub mod lifecycle;
pub mod context;
pub mod event_loop;
pub mod laws;
