//! What holds of a diversion from its construction to its disposal, proved in
//! the model of the process's streams.

use vstd::prelude::*;

use crate::call::{OsError, Outcome, PipeResource, PlatformHandle, Request};
use crate::guard::{next, original_release, pipe_release, Next, Shh, Stage, State};
use crate::model::{answers, apply, run, World};
use crate::reader::{read_next, ReadState, ReadNext, ReadStage, Reader};
use crate::{Create, Device, Divert, ShhRead};

verus! {

/// A construction followed through the world, from the first call to the
/// outcome that ended it.
pub struct Trace {
    /// The world after the last call that was answered.
    pub world: World,
    /// Whether the world could give each of the outcomes.
    pub answered: bool,
    /// How the construction ended.
    pub end: Next,
}

/// The construction of a diversion of the stream `D` in `world`, when the
/// three calls that it may ask for are answered with `obtained`, `created` and
/// `bound`. A construction that fails early never looks at the later outcomes.
pub open spec fn construct<I: Create + Divert<D> + ShhRead, D: Device>(
    world: World,
    obtained: Outcome,
    created: Outcome,
    bound: Outcome,
) -> Trace {
    let first = Request::Obtain { slot: D::slot() };
    let after_first = apply::<I, D>(world, first, obtained);
    match next::<I, D>(Stage::Obtaining, obtained) {
        Next::Call { stage: second_stage, request: second } => {
            let after_second = apply::<I, D>(after_first, second, created);
            match next::<I, D>(second_stage, created) {
                Next::Call { stage: third_stage, request: third } => Trace {
                    world: apply::<I, D>(after_second, third, bound),
                    answered: answers::<I, D>(world, first, obtained) && answers::<I, D>(
                        after_first,
                        second,
                        created,
                    ) && answers::<I, D>(after_second, third, bound),
                    end: next::<I, D>(third_stage, bound),
                },
                end => Trace {
                    world: after_second,
                    answered: answers::<I, D>(world, first, obtained) && answers::<I, D>(
                        after_first,
                        second,
                        created,
                    ),
                    end,
                },
            }
        },
        end => Trace { world: after_first, answered: answers::<I, D>(world, first, obtained), end },
    }
}

/// The world in which a diversion of the stream in `slot`, begun in `world`,
/// is in force: the stream leads into a new, empty pipe, whose ends are the
/// handles of `pipe`, and `original` leads where the stream led before.
pub open spec fn diverted(
    world: World,
    slot: i64,
    original: PlatformHandle,
    pipe: PipeResource,
) -> World {
    world.obtained(slot, original).piped(pipe).bound(slot, pipe.write_end)
}

/// Whether a diversion of the stream in `slot` can begin in `world` with the
/// handles `original` and `pipe`: the stream is bound; the original handle is
/// new if it is the caller's to release, and led where the stream leads if it is
/// not; the ends of the pipe are two more handles that were not open.
pub open spec fn begins(
    world: World,
    slot: i64,
    original: PlatformHandle,
    pipe: PipeResource,
    owned: bool,
) -> bool {
    &&& world.streams.dom().contains(slot)
    &&& owned ==> !world.handles.dom().contains(original)
    &&& !owned ==> world.handles.dom().contains(original) && world.handles[original]
        == world.streams[slot]
    &&& !world.handles.dom().contains(pipe.read_end)
    &&& !world.handles.dom().contains(pipe.write_end)
    &&& original != pipe.read_end
    &&& original != pipe.write_end
    &&& pipe.read_end != pipe.write_end
}

/// Whether `world` is one in which the diversion that `begun` saw begin is
/// still in force: streams and handles are as the construction left them. What
/// waits in the channels may have changed.
pub open spec fn in_force(
    world: World,
    begun: World,
    slot: i64,
    original: PlatformHandle,
    pipe: PipeResource,
) -> bool {
    &&& world.streams == diverted(begun, slot, original, pipe).streams
    &&& world.handles == diverted(begun, slot, original, pipe).handles
}

/// Three outcomes always bring a construction to its end.
pub proof fn lemma_construct_ends<I: Create + Divert<D> + ShhRead, D: Device>(
    world: World,
    obtained: Outcome,
    created: Outcome,
    bound: Outcome,
)
    ensures
        !(construct::<I, D>(world, obtained, created, bound).end is Call),
{
}

/// A construction that succeeds diverts the stream, and does no more than
/// that: the stream leads into a pipe that is new and empty, the original
/// handle leads where the stream led before, and every other stream, handle
/// and channel is as it was.
pub proof fn lemma_construct_diverts<I: Create + Divert<D> + ShhRead, D: Device>(
    world: World,
    obtained: Outcome,
    created: Outcome,
    bound: Outcome,
)
    requires
        world.well_formed(),
        construct::<I, D>(world, obtained, created, bound).answered,
        construct::<I, D>(world, obtained, created, bound).end is Ready,
    ensures
        ({
            let trace = construct::<I, D>(world, obtained, created, bound);
            let original = trace.end->Ready_original;
            let pipe = trace.end->Ready_pipe;
            &&& begins(world, D::slot(), original, pipe, I::owns_original())
            &&& trace.world == diverted(world, D::slot(), original, pipe)
            &&& in_force(trace.world, world, D::slot(), original, pipe)
            &&& trace.world.well_formed()
            &&& trace.world.streams == world.streams.insert(D::slot(), world.unused)
            &&& trace.world.handles[original] == world.streams[D::slot()]
            &&& trace.world.handles[pipe.write_end] == world.unused
            &&& trace.world.handles[pipe.read_end] == world.unused
            &&& trace.world.pending(pipe.read_end) == Seq::<u8>::empty()
            &&& original != pipe.read_end && original != pipe.write_end && pipe.read_end
                != pipe.write_end
        }),
{
    let trace = construct::<I, D>(world, obtained, created, bound);
    let original = trace.end->Ready_original;
    let pipe = trace.end->Ready_pipe;
    assert(D::original(obtained) == Ok::<PlatformHandle, OsError>(original));
    assert(I::created(created) == Ok::<PipeResource, OsError>(pipe));
    assert(I::diverted(bound) is Ok);
    let after_first = world.obtained(D::slot(), original);
    assert(after_first.handles.dom().contains(original));
}

/// Construction is all or nothing. Once the calls that a failed construction
/// leaves to be made have been made, whatever their outcomes, every stream
/// leads where it led before and the handles that are open are those that were
/// open before.
pub proof fn lemma_construct_all_or_nothing<I: Create + Divert<D> + ShhRead, D: Device>(
    world: World,
    obtained: Outcome,
    created: Outcome,
    bound: Outcome,
    aftermath: Seq<Outcome>,
)
    requires
        construct::<I, D>(world, obtained, created, bound).answered,
        construct::<I, D>(world, obtained, created, bound).end is Failed,
    ensures
        ({
            let trace = construct::<I, D>(world, obtained, created, bound);
            let left = run::<I, D>(trace.world, trace.end->Failed_cleanup, aftermath);
            &&& left.streams == world.streams
            &&& left.handles == world.handles
        }),
{
    let trace = construct::<I, D>(world, obtained, created, bound);
    let cleanup = trace.end->Failed_cleanup;
    let left = run::<I, D>(trace.world, cleanup, aftermath);
    reveal_with_fuel(run, 4);
    match D::original(obtained) {
        Ok(original) => {
            let after_first = world.obtained(D::slot(), original);
            match I::created(created) {
                Ok(pipe) => {
                    assert(I::diverted(bound) is Err);
                    assert(trace.world == after_first.piped(pipe));
                    assert(cleanup =~= original_release(original, I::owns_original())
                        + pipe_release(pipe));
                    assert(left.handles =~= world.handles);
                },
                Err(_) => {
                    assert(trace.world == after_first);
                    assert(cleanup =~= original_release(original, I::owns_original()));
                    assert(left.handles =~= world.handles);
                },
            }
        },
        Err(_) => {
            assert(cleanup =~= Seq::<Request>::empty());
        },
    }
}

/// While a diversion is in force, what is written to the stream lands in
/// the pipe, behind what waits there already, and nowhere else: every channel
/// that was in use when the diversion began holds what it held.
pub proof fn lemma_written_is_captured(
    world: World,
    begun: World,
    slot: i64,
    original: PlatformHandle,
    pipe: PipeResource,
    bytes: Seq<u8>,
)
    requires
        begun.well_formed(),
        in_force(world, begun, slot, original, pipe),
    ensures
        world.written(slot, bytes).pending(pipe.read_end) == world.pending(pipe.read_end) + bytes,
        in_force(world.written(slot, bytes), begun, slot, original, pipe),
        forall|channel: int|
            channel < begun.unused ==> world.written(slot, bytes).channels[channel]
                == world.channels[channel],
{
}

/// Disposal restores the stream. If the guard's calls are made in a world
/// in which its diversion is in force, and the call that binds the stream
/// succeeds, then afterwards every stream leads where it led before the
/// diversion began, and the handles that are open are those that were open then.
/// What waits in the channels is not touched.
pub proof fn lemma_dispose_restores<I: Create + Divert<D> + ShhRead, D: Device>(
    shh: Shh<I, D>,
    begun: World,
    world: World,
    outcomes: Seq<Outcome>,
)
    requires
        shh.state() == State::Active,
        begins(begun, D::slot(), shh.original(), shh.pipe(), I::owns_original()),
        in_force(world, begun, D::slot(), shh.original(), shh.pipe()),
        outcomes.len() == shh.dispose_requests().len(),
        I::diverted(outcomes[0]) is Ok,
    ensures
        ({
            let after = run::<I, D>(world, shh.dispose_requests(), outcomes);
            &&& after.streams == begun.streams
            &&& after.handles == begun.handles
            &&& after.channels == world.channels
        }),
{
    let plan = shh.dispose_requests();
    let after = run::<I, D>(world, plan, outcomes);
    reveal_with_fuel(run, 5);
    assert(plan[0] == Request::Bind { slot: D::slot(), handle: shh.original() });
    assert(after.streams =~= begun.streams);
    assert(after.handles =~= begun.handles);
}

/// A disposal whose call to bind the stream fails leaves the stream in the
/// pipe, and still releases all that the guard held.
pub proof fn lemma_failed_dispose_releases<I: Create + Divert<D> + ShhRead, D: Device>(
    shh: Shh<I, D>,
    begun: World,
    world: World,
    outcomes: Seq<Outcome>,
)
    requires
        shh.state() == State::Active,
        begins(begun, D::slot(), shh.original(), shh.pipe(), I::owns_original()),
        in_force(world, begun, D::slot(), shh.original(), shh.pipe()),
        outcomes.len() == shh.dispose_requests().len(),
        I::diverted(outcomes[0]) is Err,
    ensures
        ({
            let after = run::<I, D>(world, shh.dispose_requests(), outcomes);
            &&& after.streams == world.streams
            &&& after.handles == begun.handles
            &&& after.channels == world.channels
        }),
{
    let plan = shh.dispose_requests();
    let after = run::<I, D>(world, plan, outcomes);
    reveal_with_fuel(run, 5);
    assert(plan[0] == Request::Bind { slot: D::slot(), handle: shh.original() });
    assert(after.handles =~= begun.handles);
}

/// In the calls of a disposal nothing is released before the stream has
/// been bound to its original handle: the first call binds it, and all that
/// follow are releases.
pub proof fn lemma_dispose_binds_first<I: Divert<D>, D: Device>(shh: Shh<I, D>)
    requires
        shh.state() == State::Active,
    ensures
        shh.dispose_requests()[0] == (Request::Bind { slot: D::slot(), handle: shh.original() }),
        forall|i: int|
            1 <= i < shh.dispose_requests().len() ==> #[trigger] shh.dispose_requests()[i]
                is Release,
{
}

/// To dispose of a guard twice is to dispose of it once: the second
/// disposal asks for no call, so it leaves every world as it is, and it reports
/// no failure.
pub proof fn lemma_dispose_twice<I: Create + Divert<D> + ShhRead, D: Device>(
    shh: Shh<I, D>,
    world: World,
    outcomes: Seq<Outcome>,
)
    ensures
        shh.disposed().dispose_requests() == Seq::<Request>::empty(),
        shh.disposed().disposed() == shh.disposed(),
        run::<I, D>(world, shh.disposed().dispose_requests(), outcomes) == world,
        Shh::<I, D>::verdict(Seq::empty()) == Ok::<(), OsError>(()),
{
    shh.lemma_disposed_once();
}

/// One read followed through the world.
pub struct Reading {
    /// The world after the last call of the read.
    pub world: World,
    /// Whether the world could give each of the outcomes.
    pub answered: bool,
    /// What the read returned.
    pub result: Result<usize, OsError>,
}

/// A read through `handle` into a buffer of `buf_len` bytes in `world`, when
/// the two calls that it may ask for are answered with `peeked` and
/// `transferred`. A read that ends after the first call never looks at the
/// second outcome.
pub open spec fn read<I: Create + Divert<D> + ShhRead, D: Device>(
    world: World,
    handle: PlatformHandle,
    buf_len: usize,
    peeked: Outcome,
    transferred: Outcome,
) -> Reading {
    let first = Request::Peek { handle };
    let reader = ReadState { handle, buf_len, stage: ReadStage::Peeking };
    match read_next::<I>(reader, peeked) {
        ReadNext::Call { reader: second_reader, request: second } => Reading {
            world: apply::<I, D>(world, second, transferred),
            answered: answers::<I, D>(world, first, peeked) && answers::<I, D>(
                world,
                second,
                transferred,
            ),
            result: match read_next::<I>(second_reader, transferred) {
                ReadNext::Done(result) => result,
                ReadNext::Call { .. } => Ok(0),
            },
        },
        ReadNext::Done(result) => Reading {
            world,
            answered: answers::<I, D>(world, first, peeked),
            result,
        },
    }
}

/// The bytes that a read with `result` moved into the buffer: as many as it
/// reports, from the front of what was pending in `world`.
pub open spec fn delivered(
    world: World,
    handle: PlatformHandle,
    result: Result<usize, OsError>,
) -> Seq<u8> {
    match result {
        Ok(count) => world.pending(handle).subrange(0, count as int),
        Err(_) => Seq::empty(),
    }
}

/// A read takes bytes from the front of what is pending and leaves the rest
/// in place. It reports no more bytes than the buffer holds. A read that fails
/// takes nothing. A read never changes where a stream or a handle leads.
pub proof fn lemma_read_takes_front<I: Create + Divert<D> + ShhRead, D: Device>(
    world: World,
    handle: PlatformHandle,
    buf_len: usize,
    peeked: Outcome,
    transferred: Outcome,
)
    requires
        read::<I, D>(world, handle, buf_len, peeked, transferred).answered,
    ensures
        ({
            let reading = read::<I, D>(world, handle, buf_len, peeked, transferred);
            &&& reading.world.streams == world.streams
            &&& reading.world.handles == world.handles
            &&& reading.world.unused == world.unused
            &&& reading.result matches Ok(count) ==> count <= buf_len && count
                <= world.pending(handle).len()
            &&& delivered(world, handle, reading.result) + reading.world.pending(handle)
                == world.pending(handle)
            &&& forall|channel: int|
                channel != world.handles[handle] ==> reading.world.channels[channel]
                    == world.channels[channel]
        }),
{
    let reading = read::<I, D>(world, handle, buf_len, peeked, transferred);
    let pending = world.pending(handle);
    match reading.result {
        Ok(count) => {
            assert(reading.world.pending(handle) =~= pending.skip(count as int));
            assert(pending.subrange(0, count as int) + pending.skip(count as int) =~= pending);
        },
        Err(_) => {
            assert(Seq::<u8>::empty() + pending =~= pending);
        },
    }
}

/// A read never blocks on an empty pipe. When nothing is pending, the read
/// is over after the query, without a call that reads, and unless the query
/// itself failed it returns zero bytes.
pub proof fn lemma_empty_read<I: Create + Divert<D> + ShhRead, D: Device>(
    world: World,
    handle: PlatformHandle,
    buf_len: usize,
    peeked: Outcome,
    transferred: Outcome,
)
    requires
        world.pending(handle).len() == 0,
        read::<I, D>(world, handle, buf_len, peeked, transferred).answered,
    ensures
        Reader::<I>::first(handle, buf_len) == (ReadNext::Call {
            reader: ReadState { handle, buf_len, stage: ReadStage::Peeking },
            request: Request::Peek { handle },
        }),
        read_next::<I>(ReadState { handle, buf_len, stage: ReadStage::Peeking }, peeked) is Done,
        read::<I, D>(world, handle, buf_len, peeked, transferred).world == world,
        I::available(peeked) is Ok ==> read::<I, D>(
            world,
            handle,
            buf_len,
            peeked,
            transferred,
        ).result == Ok::<usize, OsError>(0),
        I::available(peeked) matches Err(error) ==> read::<I, D>(
            world,
            handle,
            buf_len,
            peeked,
            transferred,
        ).result == Err::<usize, OsError>(error),
{
}

/// A read into a buffer that holds something returns zero bytes only when
/// nothing is pending.
pub proof fn lemma_zero_means_empty<I: Create + Divert<D> + ShhRead, D: Device>(
    world: World,
    handle: PlatformHandle,
    buf_len: usize,
    peeked: Outcome,
    transferred: Outcome,
)
    requires
        buf_len > 0,
        read::<I, D>(world, handle, buf_len, peeked, transferred).answered,
        read::<I, D>(world, handle, buf_len, peeked, transferred).result == Ok::<usize, OsError>(0),
    ensures
        world.pending(handle).len() == 0,
{
}

/// Reading right after a diversion has begun, before anything is written,
/// returns zero bytes, after the query alone.
pub proof fn lemma_first_read_is_empty<I: Create + Divert<D> + ShhRead, D: Device>(
    world: World,
    obtained: Outcome,
    created: Outcome,
    bound: Outcome,
    buf_len: usize,
    peeked: Outcome,
    transferred: Outcome,
)
    requires
        world.well_formed(),
        construct::<I, D>(world, obtained, created, bound).answered,
        construct::<I, D>(world, obtained, created, bound).end is Ready,
        read::<I, D>(
            construct::<I, D>(world, obtained, created, bound).world,
            construct::<I, D>(world, obtained, created, bound).end->Ready_pipe.read_end,
            buf_len,
            peeked,
            transferred,
        ).answered,
        I::available(peeked) is Ok,
    ensures
        ({
            let trace = construct::<I, D>(world, obtained, created, bound);
            let handle = trace.end->Ready_pipe.read_end;
            let reading = read::<I, D>(trace.world, handle, buf_len, peeked, transferred);
            &&& read_next::<I>(ReadState { handle, buf_len, stage: ReadStage::Peeking }, peeked)
                is Done
            &&& reading.result == Ok::<usize, OsError>(0)
            &&& reading.world == trace.world
        }),
{
    let trace = construct::<I, D>(world, obtained, created, bound);
    lemma_construct_diverts::<I, D>(world, obtained, created, bound);
    lemma_empty_read::<I, D>(
        trace.world,
        trace.end->Ready_pipe.read_end,
        buf_len,
        peeked,
        transferred,
    );
}

/// Something that happens to a diverted stream: code writes to it, or the
/// holder of the guard reads what was captured.
pub enum Event {
    /// `bytes` are written to the stream.
    Write { bytes: Seq<u8> },
    /// A read into a buffer of `buf_len` bytes, its calls answered with
    /// `peeked` and `transferred`.
    Read { buf_len: usize, peeked: Outcome, transferred: Outcome },
}

/// A course of events followed through the world.
pub struct Session {
    /// The world after the last event.
    pub world: World,
    /// Whether the world could give each of the outcomes.
    pub answered: bool,
    /// All that was written to the stream, in the order of writing.
    pub written: Seq<u8>,
    /// All that the reads moved into their buffers, in the order of reading.
    pub delivered: Seq<u8>,
}

/// The course of `events` in `world`, for the stream in `slot` and the read
/// end `handle` of the pipe that it is diverted into.
pub open spec fn session<I: Create + Divert<D> + ShhRead, D: Device>(
    world: World,
    slot: i64,
    handle: PlatformHandle,
    events: Seq<Event>,
) -> Session
    decreases events.len(),
{
    if events.len() == 0 {
        Session { world, answered: true, written: Seq::empty(), delivered: Seq::empty() }
    } else {
        match events[0] {
            Event::Write { bytes } => {
                let rest = session::<I, D>(
                    world.written(slot, bytes),
                    slot,
                    handle,
                    events.skip(1),
                );
                Session { written: bytes + rest.written, ..rest }
            },
            Event::Read { buf_len, peeked, transferred } => {
                let reading = read::<I, D>(world, handle, buf_len, peeked, transferred);
                let rest = session::<I, D>(reading.world, slot, handle, events.skip(1));
                Session {
                    answered: reading.answered && rest.answered,
                    delivered: delivered(world, handle, reading.result) + rest.delivered,
                    ..rest
                }
            },
        }
    }
}

/// Byte-channel fidelity. Through any course of writes and reads, what was
/// pending at first followed by all that was written is exactly what the reads
/// delivered followed by what is still pending: nothing is lost, nothing comes
/// twice, nothing changes place.
pub proof fn lemma_session_fidelity<I: Create + Divert<D> + ShhRead, D: Device>(
    world: World,
    slot: i64,
    handle: PlatformHandle,
    events: Seq<Event>,
)
    requires
        world.streams[slot] == world.handles[handle],
        session::<I, D>(world, slot, handle, events).answered,
    ensures
        ({
            let s = session::<I, D>(world, slot, handle, events);
            &&& s.delivered + s.world.pending(handle) == world.pending(handle) + s.written
            &&& s.world.streams == world.streams
            &&& s.world.handles == world.handles
            &&& s.world.unused == world.unused
            &&& forall|channel: int|
                channel != world.handles[handle] ==> s.world.channels[channel]
                    == world.channels[channel]
        }),
    decreases events.len(),
{
    let s = session::<I, D>(world, slot, handle, events);
    let pending = world.pending(handle);
    if events.len() == 0 {
        assert(s.delivered + pending =~= pending + s.written);
    } else {
        match events[0] {
            Event::Write { bytes } => {
                let after = world.written(slot, bytes);
                let rest = session::<I, D>(after, slot, handle, events.skip(1));
                lemma_session_fidelity::<I, D>(after, slot, handle, events.skip(1));
                assert(after.pending(handle) == pending + bytes);
                assert(s.delivered + s.world.pending(handle) =~= pending + (bytes + rest.written));
                assert forall|channel: int|
                    channel != world.handles[handle] implies s.world.channels[channel]
                    == world.channels[channel] by {
                    assert(after.channels[channel] == world.channels[channel]);
                }
            },
            Event::Read { buf_len, peeked, transferred } => {
                let reading = read::<I, D>(world, handle, buf_len, peeked, transferred);
                let rest = session::<I, D>(reading.world, slot, handle, events.skip(1));
                let front = delivered(world, handle, reading.result);
                lemma_read_takes_front::<I, D>(world, handle, buf_len, peeked, transferred);
                lemma_session_fidelity::<I, D>(reading.world, slot, handle, events.skip(1));
                assert(front + reading.world.pending(handle) == pending);
                assert(s.delivered + s.world.pending(handle) =~= front + (rest.delivered
                    + s.world.pending(handle)));
                assert(front + (reading.world.pending(handle) + rest.written) =~= (front
                    + reading.world.pending(handle)) + rest.written);
                assert forall|channel: int|
                    channel != world.handles[handle] implies s.world.channels[channel]
                    == world.channels[channel] by {
                    assert(reading.world.channels[channel] == world.channels[channel]);
                }
            },
        }
    }
}

/// What is written to a diverted stream and then read until nothing is
/// pending comes out as it went in: from the beginning of a diversion, whenever
/// the pipe has been drained, the reads have delivered exactly the bytes that
/// were written, in the order of writing.
pub proof fn lemma_drained_is_written<I: Create + Divert<D> + ShhRead, D: Device>(
    world: World,
    obtained: Outcome,
    created: Outcome,
    bound: Outcome,
    events: Seq<Event>,
)
    requires
        world.well_formed(),
        construct::<I, D>(world, obtained, created, bound).answered,
        construct::<I, D>(world, obtained, created, bound).end is Ready,
        session::<I, D>(
            construct::<I, D>(world, obtained, created, bound).world,
            D::slot(),
            construct::<I, D>(world, obtained, created, bound).end->Ready_pipe.read_end,
            events,
        ).answered,
    ensures
        ({
            let trace = construct::<I, D>(world, obtained, created, bound);
            let handle = trace.end->Ready_pipe.read_end;
            let s = session::<I, D>(trace.world, D::slot(), handle, events);
            &&& s.delivered + s.world.pending(handle) == s.written
            &&& s.world.pending(handle).len() == 0 ==> s.delivered == s.written
            &&& in_force(
                s.world,
                world,
                D::slot(),
                trace.end->Ready_original,
                trace.end->Ready_pipe,
            )
        }),
{
    let trace = construct::<I, D>(world, obtained, created, bound);
    let handle = trace.end->Ready_pipe.read_end;
    let s = session::<I, D>(trace.world, D::slot(), handle, events);
    lemma_construct_diverts::<I, D>(world, obtained, created, bound);
    lemma_session_fidelity::<I, D>(trace.world, D::slot(), handle, events);
    assert(trace.world.pending(handle) + s.written =~= s.written);
    assert(s.world.pending(handle).len() == 0 ==> s.delivered + s.world.pending(handle)
        =~= s.delivered);
}

/// Restoration fidelity. Take a diversion from its construction through any
/// course of writes and reads to a disposal whose call to bind the stream
/// succeeds. Afterwards every stream leads where it led before the diversion,
/// so that what is written to the stream reaches its original channel again;
/// the handles that are open are those that were open before; and no channel
/// that was in use before has gained or lost a byte in the meantime.
pub proof fn lemma_restoration<I: Create + Divert<D> + ShhRead, D: Device>(
    shh: Shh<I, D>,
    world: World,
    obtained: Outcome,
    created: Outcome,
    bound: Outcome,
    events: Seq<Event>,
    outcomes: Seq<Outcome>,
    bytes: Seq<u8>,
)
    requires
        world.well_formed(),
        construct::<I, D>(world, obtained, created, bound).answered,
        construct::<I, D>(world, obtained, created, bound).end == (Next::Ready {
            original: shh.original(),
            pipe: shh.pipe(),
        }),
        shh.state() == State::Active,
        session::<I, D>(
            construct::<I, D>(world, obtained, created, bound).world,
            D::slot(),
            shh.pipe().read_end,
            events,
        ).answered,
        outcomes.len() == shh.dispose_requests().len(),
        I::diverted(outcomes[0]) is Ok,
    ensures
        ({
            let trace = construct::<I, D>(world, obtained, created, bound);
            let s = session::<I, D>(trace.world, D::slot(), shh.pipe().read_end, events);
            let after = run::<I, D>(s.world, shh.dispose_requests(), outcomes);
            let channel = world.streams[D::slot()];
            &&& after.streams == world.streams
            &&& after.handles == world.handles
            &&& forall|c: int| c < world.unused ==> after.channels[c] == world.channels[c]
            &&& after.written(D::slot(), bytes).channels[channel] == world.channels[channel]
                + bytes
        }),
{
    let trace = construct::<I, D>(world, obtained, created, bound);
    let s = session::<I, D>(trace.world, D::slot(), shh.pipe().read_end, events);
    lemma_construct_diverts::<I, D>(world, obtained, created, bound);
    lemma_drained_is_written::<I, D>(world, obtained, created, bound, events);
    lemma_session_fidelity::<I, D>(trace.world, D::slot(), shh.pipe().read_end, events);
    lemma_dispose_restores::<I, D>(shh, world, s.world, outcomes);
    let after = run::<I, D>(s.world, shh.dispose_requests(), outcomes);
    assert(world.streams.dom().contains(D::slot()));
    assert(world.streams[D::slot()] < world.unused);
    assert(trace.world.handles[shh.pipe().read_end] == world.unused);
    assert forall|c: int| c < world.unused implies after.channels[c] == world.channels[c] by {
        assert(s.world.channels[c] == trace.world.channels[c]);
    }
}

/// Two diversions of different streams that are in force at once stay
/// apart. Each stream leads into its own pipe, and what is written to one
/// stream lands in its pipe and leaves the other pipe as it was.
pub proof fn lemma_diversions_stay_apart<
    I: Create + Divert<D> + Divert<E> + ShhRead,
    D: Device,
    E: Device,
>(
    world: World,
    first: (Outcome, Outcome, Outcome),
    second: (Outcome, Outcome, Outcome),
    bytes: Seq<u8>,
)
    requires
        D::slot() != E::slot(),
        world.well_formed(),
        construct::<I, D>(world, first.0, first.1, first.2).answered,
        construct::<I, D>(world, first.0, first.1, first.2).end is Ready,
        construct::<I, E>(
            construct::<I, D>(world, first.0, first.1, first.2).world,
            second.0,
            second.1,
            second.2,
        ).answered,
        construct::<I, E>(
            construct::<I, D>(world, first.0, first.1, first.2).world,
            second.0,
            second.1,
            second.2,
        ).end is Ready,
    ensures
        ({
            let one = construct::<I, D>(world, first.0, first.1, first.2);
            let two = construct::<I, E>(one.world, second.0, second.1, second.2);
            let here = one.end->Ready_pipe.read_end;
            let there = two.end->Ready_pipe.read_end;
            let both = two.world;
            &&& both.streams[D::slot()] == both.handles[here]
            &&& both.streams[E::slot()] == both.handles[there]
            &&& both.handles[here] != both.handles[there]
            &&& both.written(D::slot(), bytes).pending(here) == both.pending(here) + bytes
            &&& both.written(D::slot(), bytes).pending(there) == both.pending(there)
            &&& both.written(E::slot(), bytes).pending(there) == both.pending(there) + bytes
            &&& both.written(E::slot(), bytes).pending(here) == both.pending(here)
        }),
{
    let one = construct::<I, D>(world, first.0, first.1, first.2);
    let two = construct::<I, E>(one.world, second.0, second.1, second.2);
    lemma_construct_diverts::<I, D>(world, first.0, first.1, first.2);
    lemma_construct_diverts::<I, E>(one.world, second.0, second.1, second.2);
    assert(one.world.handles.dom().contains(one.end->Ready_pipe.read_end));
}

/// Diversions of one stream nest. When a second diversion of a stream begins
/// while a first is in force and ends before the first does, the end of the
/// second leaves the first in force, and the end of the first then leaves every
/// stream and every handle as it was before either began.
pub proof fn lemma_nested_diversions_unwind<I: Create + Divert<D> + ShhRead, D: Device>(
    outer: Shh<I, D>,
    inner: Shh<I, D>,
    world: World,
    first: (Outcome, Outcome, Outcome),
    second: (Outcome, Outcome, Outcome),
    inner_outcomes: Seq<Outcome>,
    outer_outcomes: Seq<Outcome>,
)
    requires
        world.well_formed(),
        outer.state() == State::Active,
        inner.state() == State::Active,
        construct::<I, D>(world, first.0, first.1, first.2).answered,
        construct::<I, D>(world, first.0, first.1, first.2).end == (Next::Ready {
            original: outer.original(),
            pipe: outer.pipe(),
        }),
        construct::<I, D>(
            construct::<I, D>(world, first.0, first.1, first.2).world,
            second.0,
            second.1,
            second.2,
        ).answered,
        construct::<I, D>(
            construct::<I, D>(world, first.0, first.1, first.2).world,
            second.0,
            second.1,
            second.2,
        ).end == (Next::Ready { original: inner.original(), pipe: inner.pipe() }),
        inner_outcomes.len() == inner.dispose_requests().len(),
        outer_outcomes.len() == outer.dispose_requests().len(),
        I::diverted(inner_outcomes[0]) is Ok,
        I::diverted(outer_outcomes[0]) is Ok,
    ensures
        ({
            let one = construct::<I, D>(world, first.0, first.1, first.2);
            let two = construct::<I, D>(one.world, second.0, second.1, second.2);
            let unwound = run::<I, D>(two.world, inner.dispose_requests(), inner_outcomes);
            let after = run::<I, D>(unwound, outer.dispose_requests(), outer_outcomes);
            &&& in_force(unwound, world, D::slot(), outer.original(), outer.pipe())
            &&& after.streams == world.streams
            &&& after.handles == world.handles
        }),
{
    let one = construct::<I, D>(world, first.0, first.1, first.2);
    let two = construct::<I, D>(one.world, second.0, second.1, second.2);
    let unwound = run::<I, D>(two.world, inner.dispose_requests(), inner_outcomes);
    lemma_construct_diverts::<I, D>(world, first.0, first.1, first.2);
    lemma_construct_diverts::<I, D>(one.world, second.0, second.1, second.2);
    lemma_dispose_restores::<I, D>(inner, one.world, two.world, inner_outcomes);
    lemma_dispose_restores::<I, D>(outer, world, unwound, outer_outcomes);
}

} // verus!
