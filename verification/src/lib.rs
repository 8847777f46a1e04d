//! Verified core of a supervisor for one long-running media encoder.
//!
//! - [`configuration`]: the typed configuration and the assembly of the
//!   encoder's argument list from it.
//! - [`command`]: the operator's commands, the status record, and what each
//!   command does to the record.
//! - [`supervisor`]: the machine that takes events one at a time, and the
//!   laws that hold of it.
//! - [`task`]: the machine at work on tasks of the tokio runtime.
//! - [`process`]: the invocation of the encoder and the completion code of a
//!   run.
//! - [`shutdown`]: the exit code of the program.
//! - [`ui`]: the command that a submitted form names.
//! - [`error`], [`text`]: errors and string utilities.

pub mod command;
pub mod configuration;
pub mod error;
pub mod process;
pub mod shutdown;
pub mod supervisor;
pub mod task;
pub mod text;
pub mod ui;
