//! A model of what the operating system keeps for a process: where each
//! standard stream leads, which handles are open, and what waits in each
//! channel. The laws of the diversion are stated in this model.
//!
//! A channel stands for whatever bytes can be written to: a terminal, a file,
//! a pipe. Both ends of a pipe lead to the same channel. The bytes of a channel
//! are those written to it and not yet read from it.
//!
//! No executable function rests on this model. It serves the laws alone, each
//! of which says what follows if the operating system answers as [`answers`]
//! describes.

use vstd::prelude::*;

use crate::call::{Outcome, PipeResource, PlatformHandle, Request};
use crate::{Create, Device, Divert, ShhRead};

verus! {

/// The streams, handles and channels of a process.
pub struct World {
    /// The channel that each standard stream slot is bound to.
    pub streams: Map<i64, int>,
    /// The channel that each open handle leads to.
    pub handles: Map<PlatformHandle, int>,
    /// The bytes that wait in each channel.
    pub channels: Map<int, Seq<u8>>,
    /// No stream and no handle leads to a channel of this number or above.
    pub unused: int,
}

impl World {
    /// Every stream and every handle leads to a channel that is in use.
    pub open spec fn well_formed(self) -> bool {
        &&& forall|slot: i64|
            self.streams.dom().contains(slot) ==> #[trigger] self.streams[slot] < self.unused
        &&& forall|handle: PlatformHandle|
            self.handles.dom().contains(handle) ==> #[trigger] self.handles[handle] < self.unused
    }

    /// The bytes that can be read through `handle`.
    pub open spec fn pending(self, handle: PlatformHandle) -> Seq<u8> {
        self.channels[self.handles[handle]]
    }

    /// The world in which `handle` leads where the stream in `slot` leads.
    pub open spec fn obtained(self, slot: i64, handle: PlatformHandle) -> World {
        World { handles: self.handles.insert(handle, self.streams[slot]), ..self }
    }

    /// The world with a new, empty pipe, whose ends are the handles of `pipe`.
    pub open spec fn piped(self, pipe: PipeResource) -> World {
        World {
            handles: self.handles.insert(pipe.read_end, self.unused).insert(
                pipe.write_end,
                self.unused,
            ),
            channels: self.channels.insert(self.unused, Seq::empty()),
            unused: self.unused + 1,
            ..self
        }
    }

    /// The world in which the stream in `slot` leads where `handle` leads.
    pub open spec fn bound(self, slot: i64, handle: PlatformHandle) -> World {
        World { streams: self.streams.insert(slot, self.handles[handle]), ..self }
    }

    /// The world without `handle`. Streams keep leading where they led.
    pub open spec fn released(self, handle: PlatformHandle) -> World {
        World { handles: self.handles.remove(handle), ..self }
    }

    /// The world after the first `count` bytes were read through `handle`.
    pub open spec fn consumed(self, handle: PlatformHandle, count: int) -> World {
        World {
            channels: self.channels.insert(self.handles[handle], self.pending(handle).skip(count)),
            ..self
        }
    }

    /// The world after `bytes` were written to the stream in `slot`.
    pub open spec fn written(self, slot: i64, bytes: Seq<u8>) -> World {
        World {
            channels: self.channels.insert(
                self.streams[slot],
                self.channels[self.streams[slot]] + bytes,
            ),
            ..self
        }
    }
}

/// Whether the world can answer `request` with `outcome`, read as the
/// platform `I` and the stream `D` read it.
///
/// A call may fail for any reason. Where it succeeds: a stream that was
/// obtained was bound, and its handle is a new one where the platform leaves
/// it to the caller to release, and one that led there already where it does
/// not; the ends of a new pipe are two handles that were not open; a handle
/// that a stream was bound to was open; a query tells the number of bytes
/// pending; a read moves no more bytes than were asked for and no more than
/// were pending, and at least one if both numbers allow it.
pub open spec fn answers<I: Create + Divert<D> + ShhRead, D: Device>(
    world: World,
    request: Request,
    outcome: Outcome,
) -> bool {
    match request {
        Request::Obtain { slot } => D::original(outcome) matches Ok(handle) ==> {
            &&& world.streams.dom().contains(slot)
            &&& I::owns_original() ==> !world.handles.dom().contains(handle)
            &&& !I::owns_original() ==> world.handles.dom().contains(handle)
                && world.handles[handle] == world.streams[slot]
        },
        Request::Create => I::created(outcome) matches Ok(pipe) ==> {
            &&& !world.handles.dom().contains(pipe.read_end)
            &&& !world.handles.dom().contains(pipe.write_end)
            &&& pipe.read_end != pipe.write_end
        },
        Request::Bind { slot, handle } => I::diverted(outcome) is Ok ==> {
            &&& world.handles.dom().contains(handle)
        },
        Request::Peek { handle } => I::available(outcome) matches Ok(count) ==> {
            &&& world.handles.dom().contains(handle)
            &&& count == world.pending(handle).len()
        },
        Request::Read { handle, max } => I::transferred(outcome) matches Ok(count) ==> {
            &&& world.handles.dom().contains(handle)
            &&& count <= max
            &&& count <= world.pending(handle).len()
            &&& max > 0 && world.pending(handle).len() > 0 ==> count > 0
        },
        Request::Release { handle } => true,
    }
}

/// The world after `request` was answered with `outcome`. A call that failed
/// changed nothing; a release removes the handle whatever its outcome says.
pub open spec fn apply<I: Create + Divert<D> + ShhRead, D: Device>(
    world: World,
    request: Request,
    outcome: Outcome,
) -> World {
    match request {
        Request::Obtain { slot } => match D::original(outcome) {
            Ok(handle) => world.obtained(slot, handle),
            Err(_) => world,
        },
        Request::Create => match I::created(outcome) {
            Ok(pipe) => world.piped(pipe),
            Err(_) => world,
        },
        Request::Bind { slot, handle } => match I::diverted(outcome) {
            Ok(()) => world.bound(slot, handle),
            Err(_) => world,
        },
        Request::Peek { handle } => world,
        Request::Read { handle, max } => match I::transferred(outcome) {
            Ok(count) => world.consumed(handle, count as int),
            Err(_) => world,
        },
        Request::Release { handle } => world.released(handle),
    }
}

/// The world after each of `requests` was answered in turn with the outcome
/// at the same place in `outcomes`.
pub open spec fn run<I: Create + Divert<D> + ShhRead, D: Device>(
    world: World,
    requests: Seq<Request>,
    outcomes: Seq<Outcome>,
) -> World
    decreases requests.len(),
{
    if requests.len() == 0 {
        world
    } else {
        run::<I, D>(
            apply::<I, D>(world, requests[0], outcomes[0]),
            requests.skip(1),
            outcomes.skip(1),
        )
    }
}

} // verus!
