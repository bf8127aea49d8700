//! The decision core of an HTTP server whose traffic passes a ModSecurity engine.
//!
//! The engine, the sockets and the log file are driven from outside. This crate decides what
//! the engine is asked, in which order, what its answers mean and what the service and the
//! client get. What holds of every exchange is stated in [`laws`], and what it asks for step by
//! step in [`course`].

pub mod message;
pub mod intervention;
pub mod protocol;
pub mod exchange;
pub mod history;
pub mod laws;
pub mod course;
pub mod probe;
pub mod rules;
mod stages;
