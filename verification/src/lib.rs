//! Silence the standard output or standard error stream, optionally reading
//! back what was written to it.
//!
//! The crate holds the decisions of a stream diversion and none of its system
//! calls. A driver performs the calls that the crate asks for and reports what
//! came back:
//!
//! ```ignore
//! let (mut setup, mut request) = shh::unix::stdout();
//! let shh = loop {
//!     match setup.advance(&perform(&request)) {
//!         Progress::Call(next, call) => (setup, request) = (next, call),
//!         Progress::Ready(shh) => break shh,
//!         Progress::Failed { error, cleanup } => {
//!             cleanup.iter().for_each(|call| drop(perform(call)));
//!             return Err(error);
//!         }
//!     }
//! };
//! ```
//!
//! [`Setup`] builds a diversion, [`Shh`] guards it and ends it, and a
//! [`reader::Reader`] reads what was captured without blocking. The modules
//! [`unix`] and [`windows`] say how each family of platforms numbers its
//! streams and reports failure. [`model`] and [`laws`] state what a diversion
//! does to a process's streams, and prove it of the calls that the crate asks
//! for.

pub mod call;
pub mod guard;
pub mod laws;
pub mod model;
pub mod reader;
pub mod unix;
pub mod windows;

use vstd::prelude::*;

use crate::call::{OsError, Outcome, PipeResource, PlatformHandle, Request, StreamKind};
pub use crate::guard::{Progress, Setup, Shh};

verus! {

/// A standard stream, as one platform knows it.
pub trait Device {
    /// Which of the standard streams this is.
    spec fn kind() -> StreamKind;

    /// The number of the platform's slot for this stream.
    spec fn slot() -> i64;

    /// What the outcome of a [`Request::Obtain`] means: the handle to the
    /// stream's current target, or the error.
    spec fn original(outcome: Outcome) -> Result<PlatformHandle, OsError>;

    /// Executable form of [`Device::kind`].
    fn stream() -> (k: StreamKind)
        ensures
            k == Self::kind(),
    ;

    /// Executable form of [`Device::slot`].
    fn slot_number() -> (s: i64)
        ensures
            s == Self::slot(),
    ;

    /// Reads the outcome of the call that obtains the original handle.
    fn obtain_original(outcome: &Outcome) -> (r: Result<PlatformHandle, OsError>)
        ensures
            r == Self::original(*outcome),
    ;
}

/// The requests that give a stream back its original target.
///
/// The first rebinds the stream. A platform that handed out a handle of the
/// caller's own when the original was obtained has that handle released next.
pub open spec fn reinstate_requests(
    slot: i64,
    original: PlatformHandle,
    owned: bool,
) -> Seq<Request> {
    if owned {
        seq![Request::Bind { slot, handle: original }, Request::Release { handle: original }]
    } else {
        seq![Request::Bind { slot, handle: original }]
    }
}

/// A platform that can create a pipe.
pub trait Create {
    /// What the outcome of a [`Request::Create`] means: both ends of the new
    /// pipe, or the error.
    spec fn created(outcome: Outcome) -> Result<PipeResource, OsError>;

    /// Reads the outcome of the call that creates the pipe.
    fn create_files(outcome: &Outcome) -> (r: Result<PipeResource, OsError>)
        ensures
            r == Self::created(*outcome),
    ;
}

/// A platform that can bind the stream `D` to another handle and back.
pub trait Divert<D: Device> {
    /// Whether the handle that [`Device::obtain_original`] yields belongs to
    /// the caller, who then has to release it, or is the platform's own.
    spec fn owns_original() -> bool;

    /// What the outcome of a [`Request::Bind`] means.
    spec fn diverted(outcome: Outcome) -> Result<(), OsError>;

    /// What the outcome of a [`Request::Release`] means.
    spec fn released(outcome: Outcome) -> Result<(), OsError>;

    /// Executable form of [`Divert::owns_original`].
    fn closes_original() -> (b: bool)
        ensures
            b == Self::owns_original(),
    ;

    /// The call that diverts the stream into the pipe's write end.
    fn divert_std_stream(write_end: PlatformHandle) -> (r: Request)
        ensures
            r == (Request::Bind { slot: D::slot(), handle: write_end }),
    ;

    /// The calls that reinstate the stream, in the order in which they are
    /// to be made.
    fn reinstate_std_stream(original: PlatformHandle) -> (plan: Vec<Request>)
        ensures
            plan@ == reinstate_requests(D::slot(), original, Self::owns_original()),
    ;

    /// Reads the outcome of a call that binds the stream.
    fn bind_result(outcome: &Outcome) -> (r: Result<(), OsError>)
        ensures
            r == Self::diverted(*outcome),
    ;

    /// Reads the outcome of a call that releases a handle.
    fn release_result(outcome: &Outcome) -> (r: Result<(), OsError>)
        ensures
            r == Self::released(*outcome),
    ;
}

/// A platform that can tell how much of the captured output waits to be read,
/// and read it.
pub trait ShhRead {
    /// What the outcome of a [`Request::Peek`] means: the number of bytes
    /// that can be read without blocking, or the error.
    spec fn available(outcome: Outcome) -> Result<usize, OsError>;

    /// What the outcome of a [`Request::Read`] means: the number of bytes
    /// that were moved into the buffer, or the error.
    spec fn transferred(outcome: Outcome) -> Result<usize, OsError>;

    /// Reads the outcome of the availability query.
    fn available_bytes(outcome: &Outcome) -> (r: Result<usize, OsError>)
        ensures
            r == Self::available(*outcome),
    ;

    /// Reads the outcome of the read.
    fn shh_read(outcome: &Outcome) -> (r: Result<usize, OsError>)
        ensures
            r == Self::transferred(*outcome),
    ;
}

} // verus!
