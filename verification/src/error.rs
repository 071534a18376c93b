//! The errors a conversion request can end in.

use vstd::prelude::*;

verus! {

/// Why a constructed invocation did not run to success: the two kinds are
/// distinguishable, so a caller can tell a process that ran and failed from
/// one that never started.
#[derive(Debug)]
pub enum CommandFailure {
    /// The process ran and terminated without success; carries its exit
    /// code, when it terminated with one.
    ProcessFailed(Option<i32>),
    /// The process could not be started; carries the OS error description.
    LaunchFailed(String),
}

/// Everything that can go wrong with one conversion request.
#[derive(Debug)]
pub enum FFustError {
    /// The external transcoder was invoked and did not succeed.
    CommandExecutingError(CommandFailure),
    /// The input or output path carries no file extension.
    InvalidFileExtension,
    /// The output extension maps to no supported audio codec.
    UnsupportedAudioCodec,
}

} // verus!
