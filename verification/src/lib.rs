//! Startup population of a control plane's baseline data.
//!
//! Every time the control plane starts, a fixed and ordered list of steps
//! makes sure that the built-in records it relies on exist in its store:
//! users, roles and their assignments, the built-in silo and its users, the
//! fleet's collection, the rack and its address pools. This crate holds the
//! decisions of that procedure, and their proofs:
//!
//! - [`step`]: the steps, the requests that each makes, and their order;
//! - [`error`]: the store's result codes, and which failures are transient;
//! - [`backoff`]: the delay before a step is tried again;
//! - [`run`]: one run over the steps, as a machine that is handed the store's
//!   answers and says what to do next;
//! - [`status`] and [`publisher`]: what observers of a run see, and the cell
//!   that they see it through;
//! - [`store`] and [`populate`]: a store in memory, and steps and runs
//!   against it;
//! - [`laws`] and [`store_laws`]: what holds of every run;
//! - [`args`] and [`execution`]: the identifiers that runs and executions are
//!   told apart by.
//!
//! The caller owns the store, the clock and the source of randomness. It
//! makes the requests that a [`run::Run`] names, waits where the run asks for
//! a delay, and hands the status that the run ends with to the
//! [`publisher::StatusPublisher`].

pub mod args;
pub mod backoff;
pub mod error;
pub mod execution;
pub mod laws;
pub mod populate;
pub mod publisher;
pub mod run;
pub mod status;
pub mod step;
pub mod store;
pub mod store_laws;
