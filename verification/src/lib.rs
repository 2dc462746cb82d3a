//! A bridge between one blocking engine thread and the tasks around it.
//!
//! Tasks wait for a state of the engine through [`waiter`] and issue the
//! commands that bring a state about through [`command`]; the engine's
//! thread asks a remote handler for answers through [`request`]; and
//! [`lifecycle`] decides how the engine is started, run and stopped.
//! [`resolver`] and [`channel`] are the boundary to the channels that the
//! rest is built on.

pub mod channel;
pub mod command;
pub mod lifecycle;
pub mod request;
pub mod resolver;
pub mod state;
pub mod waiter;
