//! The readback handshake: getting the device array back into host memory.
//!
//! The device confirms a mapping at a time of its own choosing, so the
//! handshake is kept as a state machine. The driver performs each action on
//! the device and reports what happened; `step` decides what comes next.
//! The order is fixed: record the copy, submit it, request the mapping,
//! drive the device until it answers, read, unmap.

use crate::error::EngineError;
use vstd::prelude::*;

verus! {

/// What the completion channel shows after the device was driven.
#[derive(Clone, Copy, Debug, PartialEq, Eq, Structural)]
pub enum MapSignal {
    /// Nothing has arrived yet.
    Pending,
    /// The device mapped the destination.
    Mapped,
    /// The device refused to map the destination.
    Refused,
    /// The sending side is gone and nothing was delivered.
    Disconnected,
}

/// What the driver reports back.
#[derive(Clone, Copy, Debug, PartialEq, Eq, Structural)]
pub enum Event {
    /// The copy was recorded.
    Encoded,
    /// The copy was refused, and nothing was recorded.
    Rejected(EngineError),
    /// The recorded commands were submitted to the queue.
    Submitted,
    /// The mapping of the destination was requested.
    MapRequested,
    /// The device was driven, and the completion channel shows this.
    Signal(MapSignal),
    /// The mapped range was copied out; it held this many bytes.
    Read(u64),
    /// The destination was unmapped.
    Unmapped,
    /// The device refused an operation.
    DeviceRefused,
}

/// What the driver does next.
#[derive(Clone, Copy, Debug, PartialEq, Eq, Structural)]
pub enum Action {
    /// Finish the encoder and submit it to the queue.
    Submit,
    /// Request that the destination be mapped for reading.
    RequestMap,
    /// Drive the device, then look at the completion channel.
    Drive,
    /// Copy the mapped range into host memory.
    ReadMapped,
    /// Unmap the destination.
    Unmap,
    /// Done: the bytes read are the device array.
    Finish,
    /// Done: the readback failed.
    Fail(EngineError),
}

/// How far a readback has come.
#[derive(Clone, Copy, Debug, PartialEq, Eq, Structural)]
pub enum Stage {
    /// The copy is being recorded.
    Encoding,
    /// The recorded copy is being submitted.
    Submitting,
    /// The mapping is being requested.
    Requesting,
    /// The device is driven until it answers the request.
    Waiting,
    /// The mapped range is being copied out.
    Reading,
    /// The destination is being unmapped.
    Unmapping,
    /// The array is in host memory.
    Finished,
    /// The readback ended with this error.
    Failed(EngineError),
}

/// One readback in progress.
#[derive(Clone, Copy, Debug, PartialEq, Eq, Structural)]
pub struct Readback {
    pub stage: Stage,
    /// Bytes the copy moves: the size of the device array.
    pub expected: u64,
}

/// Whether an action touches the device.
pub open spec fn is_device_work(action: Action) -> bool {
    action != Action::Finish && !(action is Fail)
}

/// The stage after `event`, and the action that goes with it.
pub open spec fn next(readback: Readback, event: Event) -> (Stage, Action) {
    match (readback.stage, event) {
        (Stage::Finished, _) => (Stage::Finished, Action::Finish),
        (Stage::Failed(error), _) => (Stage::Failed(error), Action::Fail(error)),
        (_, Event::DeviceRefused) => fail(EngineError::DeviceResourceError),
        (Stage::Encoding, Event::Encoded) => (Stage::Submitting, Action::Submit),
        (Stage::Encoding, Event::Rejected(error)) => fail(error),
        (Stage::Submitting, Event::Submitted) => (Stage::Requesting, Action::RequestMap),
        (Stage::Requesting, Event::MapRequested) => (Stage::Waiting, Action::Drive),
        (Stage::Waiting, Event::Signal(MapSignal::Pending)) => (Stage::Waiting, Action::Drive),
        (Stage::Waiting, Event::Signal(MapSignal::Mapped)) => (Stage::Reading, Action::ReadMapped),
        (Stage::Reading, Event::Read(length)) => if length == readback.expected {
            (Stage::Unmapping, Action::Unmap)
        } else {
            fail(EngineError::ReadbackFailed)
        },
        (Stage::Unmapping, Event::Unmapped) => (Stage::Finished, Action::Finish),
        _ => fail(EngineError::ReadbackFailed),
    }
}

/// Failing with `error`.
pub open spec fn fail(error: EngineError) -> (Stage, Action) {
    (Stage::Failed(error), Action::Fail(error))
}

/// The readback after the driver reported `events`, one after the other.
pub open spec fn after(readback: Readback, events: Seq<Event>) -> Readback
    decreases events.len(),
{
    if events.len() == 0 {
        readback
    } else {
        let before = after(readback, events.drop_last());
        Readback { stage: next(before, events.last()).0, expected: before.expected }
    }
}

/// The action that answers the last of `events`.
pub open spec fn answer(readback: Readback, events: Seq<Event>) -> Action
    recommends
        events.len() > 0,
{
    next(after(readback, events.drop_last()), events.last()).1
}

/// The place of a stage in the handshake.
pub open spec fn stage_rank(stage: Stage) -> int {
    match stage {
        Stage::Encoding => 0,
        Stage::Submitting => 1,
        Stage::Requesting => 2,
        Stage::Waiting => 3,
        Stage::Reading => 4,
        Stage::Unmapping => 5,
        Stage::Finished => 6,
        Stage::Failed(_) => 6,
    }
}

/// The place of a device action in the handshake.
pub open spec fn action_rank(action: Action) -> int {
    match action {
        Action::Submit => 1,
        Action::RequestMap => 2,
        Action::Drive => 3,
        Action::ReadMapped => 4,
        Action::Unmap => 5,
        Action::Finish => 6,
        Action::Fail(_) => 6,
    }
}

/// A step never goes back in the handshake, and the action it asks for is
/// the one that belongs to the stage it enters.
pub proof fn lemma_step_moves_forward(readback: Readback, event: Event)
    ensures
        stage_rank(readback.stage) <= stage_rank(next(readback, event).0),
        action_rank(next(readback, event).1) == stage_rank(next(readback, event).0),
{
}

/// Over any run, the stage only moves forward.
pub proof fn lemma_run_moves_forward(readback: Readback, events: Seq<Event>, shorter: int)
    requires
        0 <= shorter <= events.len(),
    ensures
        stage_rank(after(readback, events.take(shorter)).stage) <= stage_rank(
            after(readback, events).stage,
        ),
    decreases events.len(),
{
    if shorter < events.len() {
        let front = events.drop_last();
        assert(front.take(shorter) =~= events.take(shorter));
        lemma_run_moves_forward(readback, front, shorter);
        lemma_step_moves_forward(after(readback, front), events.last());
    } else {
        assert(events.take(shorter) =~= events);
    }
}

/// The handshake is strict: whatever the driver reports, and in whatever
/// order, the device actions it is asked for come in the order submit,
/// request the mapping, drive, read, unmap. None is asked for twice but
/// driving, which repeats while the device has not answered.
pub proof fn lemma_actions_in_order(events: Seq<Event>, expected: u64, earlier: int, later: int)
    requires
        0 < earlier < later <= events.len(),
        is_device_work(answer(Readback { stage: Stage::Encoding, expected }, events.take(earlier))),
        is_device_work(answer(Readback { stage: Stage::Encoding, expected }, events.take(later))),
    ensures
        ({
            let fresh = Readback { stage: Stage::Encoding, expected };
            let first = answer(fresh, events.take(earlier));
            let second = answer(fresh, events.take(later));
            action_rank(first) < action_rank(second) || (first == Action::Drive && second
                == Action::Drive)
        }),
{
    let fresh = Readback { stage: Stage::Encoding, expected };
    let until_first = events.take(earlier);
    let until_second = events.take(later);
    let before_second = until_second.drop_last();
    // The first action belongs to the stage that the first run entered.
    lemma_step_moves_forward(after(fresh, until_first.drop_last()), until_first.last());
    // The second step starts no earlier than that stage.
    assert(before_second.take(earlier) =~= until_first);
    lemma_run_moves_forward(fresh, before_second, earlier);
    lemma_step_moves_forward(after(fresh, before_second), until_second.last());
}

/// Whether the device confirmed the mapping at some point of `events`.
pub open spec fn mapping_confirmed(events: Seq<Event>) -> bool {
    exists|i: int|
        0 <= i < events.len() && #[trigger] events[i] == Event::Signal(MapSignal::Mapped)
}

/// Whether, at some point of `events` after the device confirmed the
/// mapping, a read returned `expected` bytes.
pub open spec fn read_in_full(events: Seq<Event>, expected: u64) -> bool {
    exists|i: int, j: int|
        0 <= i < j < events.len() && #[trigger] events[i] == Event::Signal(MapSignal::Mapped)
            && #[trigger] events[j] == Event::Read(expected)
}

/// Reading is reached only through a confirmed mapping, and what lies
/// beyond it only through a read of the expected length.
proof fn lemma_progress_is_earned(events: Seq<Event>, expected: u64)
    ensures
        ({
            let stage = after(Readback { stage: Stage::Encoding, expected }, events).stage;
            &&& stage == Stage::Reading ==> mapping_confirmed(events)
            &&& stage == Stage::Unmapping || stage == Stage::Finished ==> read_in_full(
                events,
                expected,
            )
        }),
    decreases events.len(),
{
    let fresh = Readback { stage: Stage::Encoding, expected };
    if events.len() > 0 {
        let front = events.drop_last();
        let last: int = events.len() - 1;
        let before = after(fresh, front);
        let stage = after(fresh, events).stage;
        lemma_progress_is_earned(front, expected);
        lemma_expected_is_kept(fresh, front);
        if stage == Stage::Reading {
            assert(events[last] == Event::Signal(MapSignal::Mapped));
        } else if stage == Stage::Unmapping {
            assert(before.stage == Stage::Reading);
            let i: int = choose|i: int|
                0 <= i < front.len() && #[trigger] front[i] == Event::Signal(MapSignal::Mapped);
            assert(events[i] == front[i]);
            assert(events[last] == Event::Read(expected));
        } else if stage == Stage::Finished {
            assert(before.stage == Stage::Unmapping || before.stage == Stage::Finished);
            let (i, j): (int, int) = choose|i: int, j: int|
                0 <= i < j < front.len() && #[trigger] front[i] == Event::Signal(MapSignal::Mapped)
                    && #[trigger] front[j] == Event::Read(expected);
            assert(events[i] == front[i] && events[j] == front[j]);
        }
    }
}

/// A run never changes the number of bytes it expects.
proof fn lemma_expected_is_kept(readback: Readback, events: Seq<Event>)
    ensures
        after(readback, events).expected == readback.expected,
    decreases events.len(),
{
    if events.len() > 0 {
        lemma_expected_is_kept(readback, events.drop_last());
    }
}

/// No partial extraction: a readback finishes only if the device confirmed
/// the mapping and, after that, the whole array was read.
pub proof fn lemma_finish_follows_a_full_read(events: Seq<Event>, expected: u64)
    requires
        after(Readback { stage: Stage::Encoding, expected }, events).stage == Stage::Finished,
    ensures
        read_in_full(events, expected),
{
    lemma_progress_is_earned(events, expected);
}

/// A copy that was refused triggers no device work: from then on the
/// readback only reports the error it was refused with.
pub proof fn lemma_refused_copy_does_no_device_work(
    events: Seq<Event>,
    expected: u64,
    error: EngineError,
    upto: int,
)
    requires
        0 < upto <= events.len(),
        events[0] == Event::Rejected(error),
    ensures
        answer(Readback { stage: Stage::Encoding, expected }, events.take(upto)) == Action::Fail(
            error,
        ),
        !is_device_work(answer(Readback { stage: Stage::Encoding, expected }, events.take(upto))),
        after(Readback { stage: Stage::Encoding, expected }, events.take(upto)).stage
            == Stage::Failed(error),
    decreases upto,
{
    let fresh = Readback { stage: Stage::Encoding, expected };
    let run = events.take(upto);
    if upto == 1 {
        assert(run.drop_last() =~= Seq::<Event>::empty());
        assert(run.last() == events[0]);
    } else {
        assert(run.drop_last() =~= events.take(upto - 1));
        lemma_refused_copy_does_no_device_work(events, expected, error, upto - 1);
    }
}

impl Event {
    /// The report of an attempt to record the copy.
    pub fn of_encoding(encoded: Result<(), EngineError>) -> (event: Event)
        ensures
            event == (match encoded {
                Ok(_) => Event::Encoded,
                Err(error) => Event::Rejected(error),
            }),
    {
        match encoded {
            Ok(_) => Event::Encoded,
            Err(error) => Event::Rejected(error),
        }
    }
}

impl Readback {
    /// A readback of `expected` bytes that has not started.
    pub fn new(expected: u64) -> (readback: Readback)
        ensures
            readback == (Readback { stage: Stage::Encoding, expected }),
    {
        Readback { stage: Stage::Encoding, expected }
    }

    /// Takes in what the driver reports and says what to do next.
    ///
    /// A refused copy, a refused or lost mapping, a read of the wrong length
    /// and any report out of turn end the readback with an error; after
    /// that, and after `Finish`, nothing more is asked of the device.
    pub fn step(&mut self, event: Event) -> (action: Action)
        ensures
            final(self).expected == old(self).expected,
            (final(self).stage, action) == next(*old(self), event),
    {
        let (stage, action) = match (self.stage, event) {
            (Stage::Finished, _) => (Stage::Finished, Action::Finish),
            (Stage::Failed(error), _) => (Stage::Failed(error), Action::Fail(error)),
            (_, Event::DeviceRefused) => (
                Stage::Failed(EngineError::DeviceResourceError),
                Action::Fail(EngineError::DeviceResourceError),
            ),
            (Stage::Encoding, Event::Encoded) => (Stage::Submitting, Action::Submit),
            (Stage::Encoding, Event::Rejected(error)) => (Stage::Failed(error), Action::Fail(error)),
            (Stage::Submitting, Event::Submitted) => (Stage::Requesting, Action::RequestMap),
            (Stage::Requesting, Event::MapRequested) => (Stage::Waiting, Action::Drive),
            (Stage::Waiting, Event::Signal(MapSignal::Pending)) => (Stage::Waiting, Action::Drive),
            (Stage::Waiting, Event::Signal(MapSignal::Mapped)) => (
                Stage::Reading,
                Action::ReadMapped,
            ),
            (Stage::Reading, Event::Read(length)) if length == self.expected => (
                Stage::Unmapping,
                Action::Unmap,
            ),
            (Stage::Unmapping, Event::Unmapped) => (Stage::Finished, Action::Finish),
            _ => (
                Stage::Failed(EngineError::ReadbackFailed),
                Action::Fail(EngineError::ReadbackFailed),
            ),
        };
        self.stage = stage;
        action
    }
}

} // verus!
