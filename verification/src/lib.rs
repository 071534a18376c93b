//! A verified core for a thin front end over an external media transcoder:
//! extension checks, the extension-to-audio-codec table, construction of the
//! transcoder's argument lists, and classification of how a launch ended.
//! Launching the process itself, argument parsing and logging live outside
//! this crate.

pub mod chars;
pub mod codec;
pub mod error;
pub mod operation;
pub mod paths;
pub mod runner;

pub use error::CommandFailure;
pub use error::FFustError;
pub use operation::Operation;
pub use runner::FFust;
