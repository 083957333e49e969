//! The diversion guard and the steps that bring it to life.
//!
//! A diversion begins as a [`Setup`], which asks for three calls in turn:
//! obtain the stream's original handle, create a pipe, bind the stream to the
//! pipe's write end. When all three succeed the setup becomes a [`Shh`], the
//! guard of an active diversion. Disposing of the guard hands out the calls that
//! bind the stream to its original handle again and release what the guard held.

use core::marker::PhantomData;
use vstd::prelude::*;

use crate::call::{OsError, Outcome, PipeResource, PlatformHandle, Request};
use crate::reader::{ReadNext, ReadStep, Reader};
use crate::{reinstate_requests, Create, Device, Divert, ShhRead};

verus! {

/// The life of a diversion.
#[derive(Clone, Copy, Debug, PartialEq, Eq, Structural)]
pub enum State {
    /// Construction has not finished; the stream is untouched.
    Uninitialized,
    /// The stream is bound to the guard's pipe.
    Active,
    /// The guard has given up the stream and all that it held.
    Disposed,
}

/// The call whose outcome a [`Setup`] waits for, with what it has gathered.
#[derive(Clone, Copy, Debug, PartialEq, Eq, Structural)]
pub enum Stage {
    /// Waiting for the original handle.
    Obtaining,
    /// Waiting for the pipe.
    Creating { original: PlatformHandle },
    /// Waiting for the stream to be bound to the pipe's write end.
    Diverting { original: PlatformHandle, pipe: PipeResource },
}

/// A diversion under construction.
///
/// Nothing here keeps two diversions of one stream apart. Each captures the
/// handle that the stream is bound to when it begins and restores that handle
/// when it ends, so diversions of the same stream have to end in the reverse of
/// the order in which they began, and must not begin at the same time.
#[derive(Debug)]
pub struct Setup<I, D> {
    stage: Stage,
    impl_mrker: PhantomData<I>,
    device_mrker: PhantomData<D>,
}

/// The guard of a diversion: it holds the pipe that the stream is diverted
/// into and the handle that the stream was bound to before.
#[derive(Debug)]
pub struct Shh<I, D> {
    original: PlatformHandle,
    pipe: PipeResource,
    active: bool,
    impl_mrker: PhantomData<I>,
    device_mrker: PhantomData<D>,
}

/// What a [`Setup`] has come to after one more outcome.
#[derive(Debug)]
pub enum Progress<I, D> {
    /// Make this call and hand its outcome to the setup.
    Call(Setup<I, D>, Request),
    /// The stream is diverted.
    Ready(Shh<I, D>),
    /// Construction failed with `error`. The calls of `cleanup`, made in
    /// order, release what had been acquired; their outcomes are of no
    /// consequence.
    Failed { error: OsError, cleanup: Vec<Request> },
}

/// The mathematical content of a [`Progress`].
pub enum Next {
    Call { stage: Stage, request: Request },
    Ready { original: PlatformHandle, pipe: PipeResource },
    Failed { error: OsError, cleanup: Seq<Request> },
}

/// The release of the original handle, where it is the caller's to release.
pub open spec fn original_release(original: PlatformHandle, owned: bool) -> Seq<Request> {
    if owned {
        seq![Request::Release { handle: original }]
    } else {
        Seq::empty()
    }
}

/// The release of both ends of the pipe, the write end first.
pub open spec fn pipe_release(pipe: PipeResource) -> Seq<Request> {
    seq![Request::Release { handle: pipe.write_end }, Request::Release { handle: pipe.read_end }]
}

/// The step that a setup in `stage` takes on `outcome`.
///
/// A failure to obtain the original handle leaves nothing to release. A
/// failure to create the pipe leaves the original handle. A failure to bind the
/// stream leaves the original handle and the pipe; the stream itself is not
/// bound again, since the failed call left it as it was.
pub open spec fn next<I: Create + Divert<D>, D: Device>(stage: Stage, outcome: Outcome) -> Next {
    match stage {
        Stage::Obtaining => match D::original(outcome) {
            Ok(original) => Next::Call {
                stage: Stage::Creating { original },
                request: Request::Create,
            },
            Err(error) => Next::Failed { error, cleanup: Seq::empty() },
        },
        Stage::Creating { original } => match I::created(outcome) {
            Ok(pipe) => Next::Call {
                stage: Stage::Diverting { original, pipe },
                request: Request::Bind { slot: D::slot(), handle: pipe.write_end },
            },
            Err(error) => Next::Failed {
                error,
                cleanup: original_release(original, I::owns_original()),
            },
        },
        Stage::Diverting { original, pipe } => match I::diverted(outcome) {
            Ok(()) => Next::Ready { original, pipe },
            Err(error) => Next::Failed {
                error,
                cleanup: original_release(original, I::owns_original()) + pipe_release(pipe),
            },
        },
    }
}

impl<I, D> Setup<I, D> {
    /// The call that the setup waits for.
    pub closed spec fn stage(&self) -> Stage {
        self.stage
    }

    /// A setup is a diversion that is not yet in force.
    pub open spec fn state(&self) -> State {
        State::Uninitialized
    }
}

impl<I, D> Shh<I, D> {
    /// Whether the diversion is in force.
    pub closed spec fn state(&self) -> State {
        if self.active {
            State::Active
        } else {
            State::Disposed
        }
    }

    /// The handle that the stream was bound to when the diversion began.
    pub closed spec fn original(&self) -> PlatformHandle {
        self.original
    }

    /// The pipe that the stream was diverted into.
    pub closed spec fn pipe(&self) -> PipeResource {
        self.pipe
    }

    /// The guard once it has been disposed of.
    pub closed spec fn disposed(self) -> Self {
        Shh { active: false, ..self }
    }

    /// Disposal is idempotent: a guard that has been disposed of is in its
    /// last state, and to dispose of it again changes nothing. What it held is
    /// still on record.
    pub proof fn lemma_disposed_once(self)
        ensures
            self.disposed().state() == State::Disposed,
            self.disposed().original() == self.original(),
            self.disposed().pipe() == self.pipe(),
            self.disposed().disposed() == self.disposed(),
            self.state() == State::Disposed ==> self.disposed() == self,
    {
    }
}

impl<I, D> View for Progress<I, D> {
    type V = Next;

    open spec fn view(&self) -> Next {
        match *self {
            Progress::Call(setup, request) => Next::Call { stage: setup.stage(), request },
            Progress::Ready(shh) => Next::Ready { original: shh.original(), pipe: shh.pipe() },
            Progress::Failed { error, cleanup } => Next::Failed { error, cleanup: cleanup@ },
        }
    }
}

impl<I: Create + Divert<D>, D: Device> Setup<I, D> {
    /// Begins a diversion of the stream `D`. The request is the first call to
    /// make; its outcome goes to [`Setup::advance`].
    pub fn new() -> (r: (Self, Request))
        ensures
            r.0.stage() == Stage::Obtaining,
            r.1 == (Request::Obtain { slot: D::slot() }),
    {
        let setup = Setup {
            stage: Stage::Obtaining,
            impl_mrker: PhantomData,
            device_mrker: PhantomData,
        };
        (setup, Request::Obtain { slot: D::slot_number() })
    }

    /// Takes the outcome of the call that the setup asked for last and says
    /// what comes next.
    pub fn advance(self, outcome: &Outcome) -> (p: Progress<I, D>)
        ensures
            p@ == next::<I, D>(self.stage(), *outcome),
            p matches Progress::Ready(shh) ==> shh.state() == State::Active,
    {
        match self.stage {
            Stage::Obtaining => match D::obtain_original(outcome) {
                Ok(original) => Progress::Call(
                    Setup {
                        stage: Stage::Creating { original },
                        impl_mrker: PhantomData,
                        device_mrker: PhantomData,
                    },
                    Request::Create,
                ),
                Err(error) => Progress::Failed { error, cleanup: Vec::new() },
            },
            Stage::Creating { original } => match I::create_files(outcome) {
                Ok(pipe) => Progress::Call(
                    Setup {
                        stage: Stage::Diverting { original, pipe },
                        impl_mrker: PhantomData,
                        device_mrker: PhantomData,
                    },
                    I::divert_std_stream(pipe.write_end),
                ),
                Err(error) => {
                    let mut cleanup: Vec<Request> = Vec::new();
                    if I::closes_original() {
                        cleanup.push(Request::Release { handle: original });
                    }
                    assert(cleanup@ =~= original_release(original, I::owns_original()));
                    Progress::Failed { error, cleanup }
                },
            },
            Stage::Diverting { original, pipe } => match I::bind_result(outcome) {
                Ok(()) => Progress::Ready(
                    Shh {
                        original,
                        pipe,
                        active: true,
                        impl_mrker: PhantomData,
                        device_mrker: PhantomData,
                    },
                ),
                Err(error) => {
                    let mut cleanup: Vec<Request> = Vec::new();
                    if I::closes_original() {
                        cleanup.push(Request::Release { handle: original });
                    }
                    cleanup.push(Request::Release { handle: pipe.write_end });
                    cleanup.push(Request::Release { handle: pipe.read_end });
                    assert(cleanup@ =~= original_release(original, I::owns_original())
                        + pipe_release(pipe));
                    Progress::Failed { error, cleanup }
                },
            },
        }
    }

    /// Executable form of [`Setup::stage`].
    pub fn current_stage(&self) -> (s: Stage)
        ensures
            s == self.stage(),
    {
        self.stage
    }
}

impl<I: Divert<D>, D: Device> Shh<I, D> {
    /// The calls that end the diversion: none if it has ended already;
    /// otherwise the stream is bound to its original handle first, and only
    /// then is anything released.
    pub open spec fn dispose_requests(&self) -> Seq<Request> {
        if self.state() == State::Active {
            reinstate_requests(D::slot(), self.original(), I::owns_original()) + pipe_release(
                self.pipe(),
            )
        } else {
            Seq::empty()
        }
    }

    /// What a disposal amounts to, given the outcomes of the calls that
    /// [`Shh::dispose`] handed out, in order. The first of them bound the
    /// stream to its original handle; if it failed, that is the verdict. The
    /// second released the original handle, where it was the guard's to release;
    /// if it failed, that is the verdict. The releases of the pipe's ends are of
    /// no consequence, and a disposal that handed out no call did not fail.
    pub open spec fn verdict(outcomes: Seq<Outcome>) -> Result<(), OsError> {
        if outcomes.len() == 0 {
            Ok(())
        } else if I::diverted(outcomes[0]) is Err {
            I::diverted(outcomes[0])
        } else if I::owns_original() && outcomes.len() > 1 {
            I::released(outcomes[1])
        } else {
            Ok(())
        }
    }

    /// Ends the diversion. The calls returned are to be made in order,
    /// whatever their outcomes. A guard that is disposed of already hands out
    /// no call and stays as it is.
    pub fn dispose(&mut self) -> (plan: Vec<Request>)
        ensures
            plan@ == old(self).dispose_requests(),
            *final(self) == old(self).disposed(),
            final(self).state() == State::Disposed,
            final(self).original() == old(self).original(),
            final(self).pipe() == old(self).pipe(),
            old(self).state() == State::Disposed ==> *final(self) == *old(self),
    {
        if !self.active {
            return Vec::new();
        }
        let mut plan = I::reinstate_std_stream(self.original);
        plan.push(Request::Release { handle: self.pipe.write_end });
        plan.push(Request::Release { handle: self.pipe.read_end });
        self.active = false;
        assert(plan@ =~= old(self).dispose_requests());
        plan
    }

    /// Says how a disposal went, from the outcomes of the calls that
    /// [`Shh::dispose`] handed out, in the order of the calls.
    pub fn dispose_result(outcomes: &Vec<Outcome>) -> (r: Result<(), OsError>)
        ensures
            r == Self::verdict(outcomes@),
    {
        if outcomes.len() == 0 {
            return Ok(());
        }
        match I::bind_result(&outcomes[0]) {
            Err(error) => Err(error),
            Ok(()) => {
                if I::closes_original() && outcomes.len() > 1 {
                    I::release_result(&outcomes[1])
                } else {
                    Ok(())
                }
            },
        }
    }

    /// Executable form of [`Shh::state`].
    pub fn current_state(&self) -> (s: State)
        ensures
            s == self.state(),
    {
        if self.active {
            State::Active
        } else {
            State::Disposed
        }
    }

    /// Executable form of [`Shh::original`].
    pub fn original_handle(&self) -> (h: PlatformHandle)
        ensures
            h == self.original(),
    {
        self.original
    }

    /// Executable form of [`Shh::pipe`].
    pub fn pipe_ends(&self) -> (p: PipeResource)
        ensures
            p == self.pipe(),
    {
        self.pipe
    }
}

impl<I: Divert<D> + ShhRead, D: Device> Shh<I, D> {
    /// Begins a read of captured bytes into a buffer of `buf_len` bytes. A
    /// guard that is disposed of has nothing to read.
    pub fn read(&self, buf_len: usize) -> (step: ReadStep<I>)
        ensures
            step@ == if self.state() == State::Active {
                Reader::<I>::first(self.pipe().read_end, buf_len)
            } else {
                ReadNext::Done(Ok(0))
            },
    {
        if self.active {
            let (reader, request) = Reader::new(self.pipe.read_end, buf_len);
            ReadStep::Call(reader, request)
        } else {
            ReadStep::Done(Ok(0))
        }
    }
}

} // verus!
