//! Error taxonomy for the session recorder.

use vstd::prelude::*;

verus! {

/// A fatal session error. Each variant carries the raw OS error number
/// (`errno`) reported by the failing operation, so the caller can surface
/// a precise diagnostic after terminal-mode restoration.
#[derive(Clone, Copy, Debug, PartialEq, Eq, Structural)]
pub enum SrError {
    /// Failed to query or mutate the controlling terminal's attributes
    /// or geometry. Fatal at session start.
    TerminalControl(i32),
    /// Pseudo-terminal allocation or fork failure. Fatal before any
    /// child process exists.
    Spawn(i32),
    /// The forked child failed to replace itself with the shell program.
    /// Unrecoverable inside the child.
    Exec(i32),
    /// A read or write failed during the relay loop, other than the
    /// recognized peer-gone conditions. Aborts the session.
    RelayIO(i32),
}

} // verus!
