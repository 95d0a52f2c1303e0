//! Core logic of a Neovim front end for the `aichat` command-line tool.
//!
//! Three subsystems carry the logic, each verified:
//!
//! - [`config`]: the shared configuration store holding the active mode,
//!   its argument, and the optional retrieval source and session, with
//!   recovery from a poisoned lock.
//! - [`ui`]: the single-shot selection engine, a state machine that turns
//!   key events on a modal list into at most one delivered choice.
//! - [`job_runner`]: the command pipeline that builds the argument list
//!   from a configuration snapshot and reduces the tool's output to the
//!   first fenced code block.
//!
//! Everything that touches the editor or spawns the external process lives
//! outside this crate; the functions here take and return plain values.

pub mod config;
pub mod error;
pub mod job_runner;
pub mod text;
pub mod ui;

pub use config::{AichatConfig, ConfigStore, Mode};
pub use error::AichatError;
pub use ui::{SelectOpts, UiSelect};
