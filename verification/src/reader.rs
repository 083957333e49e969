//! Reading captured bytes without ever blocking.
//!
//! A read of an empty pipe would block, so a [`Reader`] first asks how many
//! bytes wait in the pipe. If none do, the read is over, with zero bytes. If
//! some do, it asks for a read of no more than that many, and no more than the
//! buffer holds, which cannot block.

use core::marker::PhantomData;
use vstd::prelude::*;

use crate::call::{OsError, Outcome, PlatformHandle, Request};
use crate::ShhRead;

verus! {

/// The call whose outcome a [`Reader`] waits for.
#[derive(Clone, Copy, Debug, PartialEq, Eq, Structural)]
pub enum ReadStage {
    /// Waiting to learn how many bytes are pending.
    Peeking,
    /// Waiting for the read itself.
    Reading,
}

/// One read in progress, from the read end `handle` into a buffer of
/// `buf_len` bytes.
#[derive(Debug)]
pub struct Reader<I> {
    handle: PlatformHandle,
    buf_len: usize,
    stage: ReadStage,
    impl_mrker: PhantomData<I>,
}

/// What a read has come to after one more outcome.
#[derive(Debug)]
pub enum ReadStep<I> {
    /// Make this call and hand its outcome to the reader.
    Call(Reader<I>, Request),
    /// The read is over: so many bytes are in the buffer, or it failed.
    Done(Result<usize, OsError>),
}

/// The mathematical content of a [`Reader`].
pub struct ReadState {
    pub handle: PlatformHandle,
    pub buf_len: usize,
    pub stage: ReadStage,
}

/// The mathematical content of a [`ReadStep`].
pub enum ReadNext {
    Call { reader: ReadState, request: Request },
    Done(Result<usize, OsError>),
}

/// The most that a read into a buffer of `buf_len` bytes may ask for when
/// `available` bytes are pending.
pub open spec fn read_limit(buf_len: usize, available: usize) -> usize {
    if available <= buf_len {
        available
    } else {
        buf_len
    }
}

/// The step that a read takes on `outcome`.
pub open spec fn read_next<I: ShhRead>(reader: ReadState, outcome: Outcome) -> ReadNext {
    match reader.stage {
        ReadStage::Peeking => match I::available(outcome) {
            Ok(available) => if available == 0 {
                ReadNext::Done(Ok(0))
            } else {
                ReadNext::Call {
                    reader: ReadState {
                        handle: reader.handle,
                        buf_len: reader.buf_len,
                        stage: ReadStage::Reading,
                    },
                    request: Request::Read {
                        handle: reader.handle,
                        max: read_limit(reader.buf_len, available),
                    },
                }
            },
            Err(error) => ReadNext::Done(Err(error)),
        },
        ReadStage::Reading => ReadNext::Done(I::transferred(outcome)),
    }
}

impl<I> View for Reader<I> {
    type V = ReadState;

    closed spec fn view(&self) -> ReadState {
        ReadState { handle: self.handle, buf_len: self.buf_len, stage: self.stage }
    }
}

impl<I> View for ReadStep<I> {
    type V = ReadNext;

    open spec fn view(&self) -> ReadNext {
        match *self {
            ReadStep::Call(reader, request) => ReadNext::Call { reader: reader@, request },
            ReadStep::Done(result) => ReadNext::Done(result),
        }
    }
}

impl<I: ShhRead> Reader<I> {
    /// How every read begins: with the query for the pending bytes.
    pub open spec fn first(handle: PlatformHandle, buf_len: usize) -> ReadNext {
        ReadNext::Call {
            reader: ReadState { handle, buf_len, stage: ReadStage::Peeking },
            request: Request::Peek { handle },
        }
    }

    /// Begins a read from `handle` into a buffer of `buf_len` bytes. The
    /// request is the first call to make; its outcome goes to
    /// [`Reader::advance`].
    pub fn new(handle: PlatformHandle, buf_len: usize) -> (r: (Self, Request))
        ensures
            r.0@ == (ReadState { handle, buf_len, stage: ReadStage::Peeking }),
            r.1 == (Request::Peek { handle }),
    {
        (
            Reader { handle, buf_len, stage: ReadStage::Peeking, impl_mrker: PhantomData },
            Request::Peek { handle },
        )
    }

    /// Takes the outcome of the call that the reader asked for last and says
    /// what comes next. With nothing pending the read is over at once, with zero
    /// bytes and no further call.
    pub fn advance(self, outcome: &Outcome) -> (step: ReadStep<I>)
        ensures
            step@ == read_next::<I>(self@, *outcome),
    {
        match self.stage {
            ReadStage::Peeking => match I::available_bytes(outcome) {
                Ok(available) => {
                    if available == 0 {
                        ReadStep::Done(Ok(0))
                    } else {
                        let max = if available <= self.buf_len {
                            available
                        } else {
                            self.buf_len
                        };
                        ReadStep::Call(
                            Reader {
                                handle: self.handle,
                                buf_len: self.buf_len,
                                stage: ReadStage::Reading,
                                impl_mrker: PhantomData,
                            },
                            Request::Read { handle: self.handle, max },
                        )
                    }
                },
                Err(error) => ReadStep::Done(Err(error)),
            },
            ReadStage::Reading => ReadStep::Done(I::shh_read(outcome)),
        }
    }
}

} // verus!
