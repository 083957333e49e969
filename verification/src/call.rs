//! The values that pass between the diversion logic and the operating system.
//!
//! The logic in this crate never touches the operating system. It hands out
//! [`Request`]s, one system call each, and is told the raw [`Outcome`] of each
//! call. What an outcome means is decided here, per platform, not by the code
//! that made the call.

use vstd::prelude::*;

verus! {

/// One of the two standard streams that can be diverted.
#[derive(Clone, Copy, Debug, PartialEq, Eq, Structural)]
pub enum StreamKind {
    Stdout,
    Stderr,
}

/// The platform's identifier of an I/O endpoint: a file descriptor, or a
/// handle widened to 64 bits. It is a plain number and confers no ownership.
#[derive(Clone, Copy, Debug, PartialEq, Eq, Structural)]
pub struct PlatformHandle {
    pub raw: i64,
}

/// The error that the operating system reported for a failed call.
#[derive(Clone, Copy, Debug, PartialEq, Eq, Structural)]
pub struct OsError {
    pub code: i32,
}

/// The two ends of one unidirectional byte channel, made by a single call.
#[derive(Clone, Copy, Debug, PartialEq, Eq, Structural)]
pub struct PipeResource {
    pub read_end: PlatformHandle,
    pub write_end: PlatformHandle,
}

/// A system call that the logic asks its driver to make.
#[derive(Clone, Copy, Debug, PartialEq, Eq, Structural)]
pub enum Request {
    /// Get a handle to whatever the standard stream in `slot` is bound to now.
    Obtain { slot: i64 },
    /// Create a pipe.
    Create,
    /// Bind the standard stream in `slot` to `handle`.
    Bind { slot: i64, handle: PlatformHandle },
    /// Ask how many bytes wait to be read from `handle`, consuming none.
    Peek { handle: PlatformHandle },
    /// Read at most `max` bytes from `handle` into the caller's buffer.
    Read { handle: PlatformHandle, max: usize },
    /// Release `handle`.
    Release { handle: PlatformHandle },
}

/// What a system call left behind, exactly as the driver found it.
///
/// Fields that a call does not produce are ignored by the logic.
#[derive(Clone, Copy, Debug, PartialEq, Eq, Structural)]
pub struct Outcome {
    /// The value that the call returned, widened to 64 bits.
    pub ret: i64,
    /// The operating system's last-error value, read right after the call.
    pub os_error: i32,
    /// The read end that a pipe creation stored.
    pub read_end: i64,
    /// The write end that a pipe creation stored.
    pub write_end: i64,
    /// The byte count that the call reported: bytes pending after a
    /// [`Request::Peek`], bytes transferred after a [`Request::Read`].
    pub count: usize,
}

impl Outcome {
    /// The error that this outcome carries if the call is found to have failed.
    pub open spec fn error(self) -> OsError {
        OsError { code: self.os_error }
    }

    /// The pipe that this outcome carries if a creation is found to have succeeded.
    pub open spec fn pipe(self) -> PipeResource {
        PipeResource {
            read_end: PlatformHandle { raw: self.read_end },
            write_end: PlatformHandle { raw: self.write_end },
        }
    }

    /// Executable form of [`Outcome::error`].
    pub fn reported_error(&self) -> (e: OsError)
        ensures
            e == self.error(),
    {
        OsError { code: self.os_error }
    }

    /// Executable form of [`Outcome::pipe`].
    pub fn pipe_ends(&self) -> (p: PipeResource)
        ensures
            p == self.pipe(),
    {
        PipeResource {
            read_end: PlatformHandle { raw: self.read_end },
            write_end: PlatformHandle { raw: self.write_end },
        }
    }
}

} // verus!
