//! A verified terminal-control surface.
//!
//! The library batches terminal commands, models the host driver's state as
//! an explicit, inspectable test double, and emits the batched commands to
//! the real terminal through a small trusted backend.

mod backend;
pub mod command;
pub mod error;
pub mod host;
pub mod laws;
pub mod terminal;

pub use command::Command;
pub use error::TerminalError;
pub use host::HostModel;
pub use terminal::{Position, Size, Terminal};
