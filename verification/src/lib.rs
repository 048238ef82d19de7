//! Runs the toolchain's source formatter on one file and classifies how the run ended.
//!
//! The library decides; the program around it starts the process and waits for it.
//! One invocation is a small state machine ([`invocation::State`]) that is driven by
//! the events the caller reports ([`invocation::Event`]).

pub mod error;
pub mod invocation;
pub mod outside;
pub mod stream;

pub use error::Error;
pub use invocation::{begin, classify, resolve, step, Event, ExitReport, State, TOOL_NAME};
pub use stream::IoStream;
