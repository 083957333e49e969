//! The handle-slot family: a process keeps one registered handle per standard
//! stream, read with `GetStdHandle` and replaced with `SetStdHandle`.
//!
//! The calls of this family return a BOOL, zero on failure, except
//! `GetStdHandle`, which returns the handle or `INVALID_HANDLE_VALUE`. The
//! original handle is the process's own record, so it is never released here.

use vstd::prelude::*;

use crate::call::{OsError, Outcome, PipeResource, PlatformHandle, Request, StreamKind};
use crate::guard::{Setup, Shh, Stage};
use crate::{Create, Device, Divert, ShhRead};

verus! {

/// `STD_OUTPUT_HANDLE`: -11 as an unsigned 32-bit number.
pub const STD_OUTPUT_HANDLE: i64 = 4294967285;

/// `STD_ERROR_HANDLE`: -12 as an unsigned 32-bit number.
pub const STD_ERROR_HANDLE: i64 = 4294967284;

/// `INVALID_HANDLE_VALUE`: the handle whose bits are all ones.
pub const INVALID_HANDLE_VALUE: i64 = -1;

/// The BOOL that reports failure.
pub const FALSE: i64 = 0;

/// The success of a call that returns a BOOL and nothing else of use.
pub open spec fn status(outcome: Outcome) -> Result<(), OsError> {
    if outcome.ret == FALSE {
        Err(outcome.error())
    } else {
        Ok(())
    }
}

/// The handle that `GetStdHandle` returned, or the error if it returned
/// `INVALID_HANDLE_VALUE`.
pub open spec fn registered(outcome: Outcome) -> Result<PlatformHandle, OsError> {
    if outcome.ret == INVALID_HANDLE_VALUE {
        Err(outcome.error())
    } else {
        Ok(PlatformHandle { raw: outcome.ret })
    }
}

/// The byte count that a call stored, or the error if the call returned zero.
pub open spec fn counted(outcome: Outcome) -> Result<usize, OsError> {
    if outcome.ret == FALSE {
        Err(outcome.error())
    } else {
        Ok(outcome.count)
    }
}

/// Reads the outcome of `GetStdHandle`.
fn get_std_handle(outcome: &Outcome) -> (r: Result<PlatformHandle, OsError>)
    ensures
        r == registered(*outcome),
{
    if outcome.ret == INVALID_HANDLE_VALUE {
        Err(outcome.reported_error())
    } else {
        Ok(PlatformHandle { raw: outcome.ret })
    }
}

/// Reads the outcome of a call that returns a BOOL and nothing else of use.
fn succeeded(outcome: &Outcome) -> (r: Result<(), OsError>)
    ensures
        r == status(*outcome),
{
    if outcome.ret == FALSE {
        Err(outcome.reported_error())
    } else {
        Ok(())
    }
}

/// Reads the outcome of `SetStdHandle`.
fn set_std_handle(outcome: &Outcome) -> (r: Result<(), OsError>)
    ensures
        r == status(*outcome),
{
    succeeded(outcome)
}

/// Reads the outcome of `PeekNamedPipe`: the total number of bytes that wait
/// in the pipe.
fn has_bytes(outcome: &Outcome) -> (r: Result<usize, OsError>)
    ensures
        r == counted(*outcome),
{
    if outcome.ret == FALSE {
        return Err(outcome.reported_error());
    }
    Ok(outcome.count)
}

/// The standard output stream of a process with handle slots.
#[derive(Clone, Copy, Debug)]
pub struct Stdout;

/// The standard error stream of a process with handle slots.
#[derive(Clone, Copy, Debug)]
pub struct Stderr;

impl Device for Stdout {
    open spec fn kind() -> StreamKind {
        StreamKind::Stdout
    }

    open spec fn slot() -> i64 {
        STD_OUTPUT_HANDLE
    }

    open spec fn original(outcome: Outcome) -> Result<PlatformHandle, OsError> {
        registered(outcome)
    }

    fn stream() -> (k: StreamKind) {
        StreamKind::Stdout
    }

    fn slot_number() -> (s: i64) {
        STD_OUTPUT_HANDLE
    }

    fn obtain_original(outcome: &Outcome) -> (r: Result<PlatformHandle, OsError>) {
        get_std_handle(outcome)
    }
}

impl Device for Stderr {
    open spec fn kind() -> StreamKind {
        StreamKind::Stderr
    }

    open spec fn slot() -> i64 {
        STD_ERROR_HANDLE
    }

    open spec fn original(outcome: Outcome) -> Result<PlatformHandle, OsError> {
        registered(outcome)
    }

    fn stream() -> (k: StreamKind) {
        StreamKind::Stderr
    }

    fn slot_number() -> (s: i64) {
        STD_ERROR_HANDLE
    }

    fn obtain_original(outcome: &Outcome) -> (r: Result<PlatformHandle, OsError>) {
        get_std_handle(outcome)
    }
}

/// The handle-slot way of creating the pipe, diverting a stream and reading
/// back.
#[derive(Clone, Copy, Debug)]
pub struct Impl;

impl Create for Impl {
    /// `CreatePipe` stores the read handle first and the write handle second.
    open spec fn created(outcome: Outcome) -> Result<PipeResource, OsError> {
        if outcome.ret == FALSE {
            Err(outcome.error())
        } else {
            Ok(outcome.pipe())
        }
    }

    fn create_files(outcome: &Outcome) -> (r: Result<PipeResource, OsError>) {
        if outcome.ret == FALSE {
            Err(outcome.reported_error())
        } else {
            Ok(outcome.pipe_ends())
        }
    }
}

impl Divert<Stdout> for Impl {
    open spec fn owns_original() -> bool {
        false
    }

    open spec fn diverted(outcome: Outcome) -> Result<(), OsError> {
        status(outcome)
    }

    /// `CloseHandle` returns a BOOL.
    open spec fn released(outcome: Outcome) -> Result<(), OsError> {
        status(outcome)
    }

    fn closes_original() -> (b: bool) {
        false
    }

    fn divert_std_stream(write_end: PlatformHandle) -> (r: Request) {
        Request::Bind { slot: Stdout::slot_number(), handle: write_end }
    }

    fn reinstate_std_stream(original: PlatformHandle) -> (plan: Vec<Request>) {
        let mut plan: Vec<Request> = Vec::new();
        plan.push(Request::Bind { slot: Stdout::slot_number(), handle: original });
        plan
    }

    fn bind_result(outcome: &Outcome) -> (r: Result<(), OsError>) {
        set_std_handle(outcome)
    }

    fn release_result(outcome: &Outcome) -> (r: Result<(), OsError>) {
        succeeded(outcome)
    }
}

impl Divert<Stderr> for Impl {
    open spec fn owns_original() -> bool {
        false
    }

    open spec fn diverted(outcome: Outcome) -> Result<(), OsError> {
        status(outcome)
    }

    /// `CloseHandle` returns a BOOL.
    open spec fn released(outcome: Outcome) -> Result<(), OsError> {
        status(outcome)
    }

    fn closes_original() -> (b: bool) {
        false
    }

    fn divert_std_stream(write_end: PlatformHandle) -> (r: Request) {
        Request::Bind { slot: Stderr::slot_number(), handle: write_end }
    }

    fn reinstate_std_stream(original: PlatformHandle) -> (plan: Vec<Request>) {
        let mut plan: Vec<Request> = Vec::new();
        plan.push(Request::Bind { slot: Stderr::slot_number(), handle: original });
        plan
    }

    fn bind_result(outcome: &Outcome) -> (r: Result<(), OsError>) {
        set_std_handle(outcome)
    }

    fn release_result(outcome: &Outcome) -> (r: Result<(), OsError>) {
        succeeded(outcome)
    }
}

impl ShhRead for Impl {
    open spec fn available(outcome: Outcome) -> Result<usize, OsError> {
        counted(outcome)
    }

    /// `ReadFile` stores the number of bytes that it moved.
    open spec fn transferred(outcome: Outcome) -> Result<usize, OsError> {
        counted(outcome)
    }

    fn available_bytes(outcome: &Outcome) -> (r: Result<usize, OsError>) {
        has_bytes(outcome)
    }

    fn shh_read(outcome: &Outcome) -> (r: Result<usize, OsError>) {
        if outcome.ret == FALSE {
            Err(outcome.reported_error())
        } else {
            Ok(outcome.count)
        }
    }
}

/// The guard of a diverted standard output.
pub type ShhStdout = Shh<Impl, Stdout>;

/// The guard of a diverted standard error.
pub type ShhStderr = Shh<Impl, Stderr>;

/// Begins to silence and redirect the standard output stream. The request is
/// the first call to make; its outcome goes to [`Setup::advance`].
pub fn stdout() -> (r: (Setup<Impl, Stdout>, Request))
    ensures
        r.0.stage() == Stage::Obtaining,
        r.1 == (Request::Obtain { slot: STD_OUTPUT_HANDLE }),
{
    Setup::new()
}

/// Begins to silence and redirect the standard error stream. The request is
/// the first call to make; its outcome goes to [`Setup::advance`].
pub fn stderr() -> (r: (Setup<Impl, Stderr>, Request))
    ensures
        r.0.stage() == Stage::Obtaining,
        r.1 == (Request::Obtain { slot: STD_ERROR_HANDLE }),
{
    Setup::new()
}

} // verus!
