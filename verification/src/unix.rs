//! The POSIX family: streams are file descriptors, rebound with `dup2`.
//!
//! Every call of this family reports failure by returning -1, except `close`,
//! which reports success by returning 0. The original handle is a duplicate of
//! the stream's descriptor, so it is the caller's to close.

use vstd::prelude::*;

use crate::call::{OsError, Outcome, PipeResource, PlatformHandle, Request, StreamKind};
use crate::guard::{Setup, Shh, Stage};
use crate::{Create, Device, Divert, ShhRead};

verus! {

/// The value by which a call of this family reports failure.
pub const FAILED: i64 = -1;

/// The descriptor number of standard output.
pub open spec fn stdout_slot() -> i64 {
    1
}

/// The descriptor number of standard error.
pub open spec fn stderr_slot() -> i64 {
    2
}

/// The success of a call that returns -1 on failure and nothing of use
/// otherwise.
pub open spec fn status(outcome: Outcome) -> Result<(), OsError> {
    if outcome.ret == FAILED {
        Err(outcome.error())
    } else {
        Ok(())
    }
}

/// The success of `close`, which returns 0 when the descriptor was closed.
pub open spec fn closed(outcome: Outcome) -> Result<(), OsError> {
    if outcome.ret == 0 {
        Ok(())
    } else {
        Err(outcome.error())
    }
}

/// The descriptor that `dup` returned, or the error if it returned -1.
pub open spec fn duplicated(outcome: Outcome) -> Result<PlatformHandle, OsError> {
    if outcome.ret == FAILED {
        Err(outcome.error())
    } else {
        Ok(PlatformHandle { raw: outcome.ret })
    }
}

/// `libc::STDOUT_FILENO`: libc defines the descriptor number of standard
/// output as 1.
#[verifier::external_body]
fn stdout_fileno() -> (fd: i32)
    ensures
        fd == 1,
{
    libc::STDOUT_FILENO
}

/// `libc::STDERR_FILENO`: libc defines the descriptor number of standard
/// error as 2.
#[verifier::external_body]
fn stderr_fileno() -> (fd: i32)
    ensures
        fd == 2,
{
    libc::STDERR_FILENO
}

/// Reads the outcome of `dup`.
fn get_std_handle(outcome: &Outcome) -> (r: Result<PlatformHandle, OsError>)
    ensures
        r == duplicated(*outcome),
{
    if outcome.ret == FAILED {
        Err(outcome.reported_error())
    } else {
        Ok(PlatformHandle { raw: outcome.ret })
    }
}

/// Reads the outcome of `dup2`.
fn set_std_fd(outcome: &Outcome) -> (r: Result<(), OsError>)
    ensures
        r == status(*outcome),
{
    if outcome.ret == FAILED {
        Err(outcome.reported_error())
    } else {
        Ok(())
    }
}

/// Reads the outcome of `close`.
fn close_handle(outcome: &Outcome) -> (r: Result<(), OsError>)
    ensures
        r == closed(*outcome),
{
    if outcome.ret == 0 {
        Ok(())
    } else {
        Err(outcome.reported_error())
    }
}

/// The standard output stream of a POSIX process.
#[derive(Clone, Copy, Debug)]
pub struct Stdout;

/// The standard error stream of a POSIX process.
#[derive(Clone, Copy, Debug)]
pub struct Stderr;

impl Device for Stdout {
    open spec fn kind() -> StreamKind {
        StreamKind::Stdout
    }

    open spec fn slot() -> i64 {
        stdout_slot()
    }

    open spec fn original(outcome: Outcome) -> Result<PlatformHandle, OsError> {
        duplicated(outcome)
    }

    fn stream() -> (k: StreamKind) {
        StreamKind::Stdout
    }

    fn slot_number() -> (s: i64) {
        stdout_fileno() as i64
    }

    fn obtain_original(outcome: &Outcome) -> (r: Result<PlatformHandle, OsError>) {
        get_std_handle(outcome)
    }
}

impl Device for Stderr {
    open spec fn kind() -> StreamKind {
        StreamKind::Stderr
    }

    open spec fn slot() -> i64 {
        stderr_slot()
    }

    open spec fn original(outcome: Outcome) -> Result<PlatformHandle, OsError> {
        duplicated(outcome)
    }

    fn stream() -> (k: StreamKind) {
        StreamKind::Stderr
    }

    fn slot_number() -> (s: i64) {
        stderr_fileno() as i64
    }

    fn obtain_original(outcome: &Outcome) -> (r: Result<PlatformHandle, OsError>) {
        get_std_handle(outcome)
    }
}

/// The POSIX way of creating the pipe, diverting a stream and reading back.
#[derive(Clone, Copy, Debug)]
pub struct Impl;

impl Create for Impl {
    /// `pipe` stores the read end first and the write end second.
    open spec fn created(outcome: Outcome) -> Result<PipeResource, OsError> {
        if outcome.ret == FAILED {
            Err(outcome.error())
        } else {
            Ok(outcome.pipe())
        }
    }

    fn create_files(outcome: &Outcome) -> (r: Result<PipeResource, OsError>) {
        if outcome.ret == FAILED {
            return Err(outcome.reported_error());
        }
        Ok(outcome.pipe_ends())
    }
}

impl Divert<Stdout> for Impl {
    open spec fn owns_original() -> bool {
        true
    }

    open spec fn diverted(outcome: Outcome) -> Result<(), OsError> {
        status(outcome)
    }

    open spec fn released(outcome: Outcome) -> Result<(), OsError> {
        closed(outcome)
    }

    fn closes_original() -> (b: bool) {
        true
    }

    fn divert_std_stream(write_end: PlatformHandle) -> (r: Request) {
        Request::Bind { slot: Stdout::slot_number(), handle: write_end }
    }

    fn reinstate_std_stream(original: PlatformHandle) -> (plan: Vec<Request>) {
        let mut plan: Vec<Request> = Vec::new();
        plan.push(Request::Bind { slot: Stdout::slot_number(), handle: original });
        plan.push(Request::Release { handle: original });
        plan
    }

    fn bind_result(outcome: &Outcome) -> (r: Result<(), OsError>) {
        set_std_fd(outcome)
    }

    fn release_result(outcome: &Outcome) -> (r: Result<(), OsError>) {
        close_handle(outcome)
    }
}

impl Divert<Stderr> for Impl {
    open spec fn owns_original() -> bool {
        true
    }

    open spec fn diverted(outcome: Outcome) -> Result<(), OsError> {
        status(outcome)
    }

    open spec fn released(outcome: Outcome) -> Result<(), OsError> {
        closed(outcome)
    }

    fn closes_original() -> (b: bool) {
        true
    }

    fn divert_std_stream(write_end: PlatformHandle) -> (r: Request) {
        Request::Bind { slot: Stderr::slot_number(), handle: write_end }
    }

    fn reinstate_std_stream(original: PlatformHandle) -> (plan: Vec<Request>) {
        let mut plan: Vec<Request> = Vec::new();
        plan.push(Request::Bind { slot: Stderr::slot_number(), handle: original });
        plan.push(Request::Release { handle: original });
        plan
    }

    fn bind_result(outcome: &Outcome) -> (r: Result<(), OsError>) {
        set_std_fd(outcome)
    }

    fn release_result(outcome: &Outcome) -> (r: Result<(), OsError>) {
        close_handle(outcome)
    }
}

impl ShhRead for Impl {
    /// The `FIONREAD` query stores the number of bytes that wait in the pipe.
    open spec fn available(outcome: Outcome) -> Result<usize, OsError> {
        if outcome.ret == FAILED {
            Err(outcome.error())
        } else {
            Ok(outcome.count)
        }
    }

    /// `read` returns the number of bytes that it moved.
    open spec fn transferred(outcome: Outcome) -> Result<usize, OsError> {
        if outcome.ret == FAILED {
            Err(outcome.error())
        } else {
            Ok(outcome.count)
        }
    }

    fn available_bytes(outcome: &Outcome) -> (r: Result<usize, OsError>) {
        if outcome.ret == FAILED {
            Err(outcome.reported_error())
        } else {
            Ok(outcome.count)
        }
    }

    fn shh_read(outcome: &Outcome) -> (r: Result<usize, OsError>) {
        if outcome.ret == FAILED {
            Err(outcome.reported_error())
        } else {
            Ok(outcome.count)
        }
    }
}

/// The guard of a diverted standard output.
pub type ShhStdout = Shh<Impl, Stdout>;

/// The guard of a diverted standard error.
pub type ShhStderr = Shh<Impl, Stderr>;

/// Begins to silence and redirect the standard output stream. The request is
/// the first call to make; its outcome goes to [`Setup::advance`].
pub fn stdout() -> (r: (Setup<Impl, Stdout>, Request))
    ensures
        r.0.stage() == Stage::Obtaining,
        r.1 == (Request::Obtain { slot: stdout_slot() }),
{
    Setup::new()
}

/// Begins to silence and redirect the standard error stream. The request is
/// the first call to make; its outcome goes to [`Setup::advance`].
pub fn stderr() -> (r: (Setup<Impl, Stderr>, Request))
    ensures
        r.0.stage() == Stage::Obtaining,
        r.1 == (Request::Obtain { slot: stderr_slot() }),
{
    Setup::new()
}

} // verus!
