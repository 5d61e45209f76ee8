//! Host-side engine for programming USB devices that speak DFU with the
//! DfuSe extension.
//!
//! The engine performs no input or output itself. Each operation is a task:
//! the host performs the action the task asks for, reports what happened as
//! an event, and repeats until the task finishes.

pub mod block;
pub mod command;
pub mod driver;
pub mod engine;
pub mod error;
pub mod laws;
pub mod script;
pub mod state;
pub mod status;
pub mod transaction;
pub mod transport;
