//! Supervision of a single worker process by a long-lived daemon.
//!
//! The daemon makes sure that it is the only daemon, retires a worker that an
//! earlier daemon may have left behind, starts a fresh worker, and then waits
//! to be told to leave: by the worker's end or by an event at its endpoint.
//! This crate holds what the daemon decides; touching files, processes,
//! sockets and the clock is left to the program around it.

pub mod cli;
pub mod daemon;
pub mod paths;
