//! Commands to the engine of one download.

use vstd::prelude::*;

verus! {

/// What the manager, or a user through it, asks of an engine.
#[derive(Debug, Clone, Copy, PartialEq, Eq, Structural, Hash)]
pub enum DownloadCommand {
    /// Stop the workers and keep what has been fetched.
    Pause,
    /// Go on after a pause.
    Resume,
    /// Stop and remove what has been fetched.
    Cancel,
}

/// The command as the engine of a file takes it.
pub type FileCommand = DownloadCommand;

} // verus!
