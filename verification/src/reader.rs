//! The pump that moves bytes from the device to the display.
//!
//! The pump decides; its driver reads from the device, hands each outcome to
//! the pump and carries out what the pump answers. A read that timed out or
//! brought no bytes is no error and no end of the stream: the driver polls
//! again, which is how the pump gets to see the shutdown signal.

use vstd::prelude::*;
use crate::signal::ShutdownOrigin;

verus! {

/// The largest number of bytes that one read hands to the pump.
pub const CHUNK_CAPACITY: usize = 4096;

/// What one read from the device brought.
#[derive(Debug, PartialEq, Eq)]
pub enum ReadOutcome {
    /// The bytes received, none where the wait ended without data.
    Data(Vec<u8>),
    /// The wait ended without data.
    TimedOut,
    /// The device reported the end of its stream.
    Closed,
    /// The read failed for another reason, such as a device that is gone.
    Failed,
}

/// What the pump asks its driver to do after a read.
#[derive(Debug, PartialEq, Eq)]
pub enum ReaderAction {
    /// Write these bytes to the display as they are.
    Deliver(Vec<u8>),
    /// Nothing to write: go on with the next turn.
    Idle,
    /// Raise the shutdown signal with this origin; the pump has stopped.
    Raise(ShutdownOrigin),
}

/// What contracts see of a reader pump.
pub struct ReaderState {
    /// Whether the pump still takes turns.
    pub running: bool,
    /// The number of chunks that the display did not take.
    pub undisplayed: nat,
}

/// The answer of a pump to the outcome of a read.
pub open spec fn reader_action(running: bool, outcome: ReadOutcome) -> ReaderAction {
    if !running {
        ReaderAction::Idle
    } else {
        match outcome {
            ReadOutcome::Data(bytes) => if bytes@.len() > 0 {
                ReaderAction::Deliver(bytes)
            } else {
                ReaderAction::Idle
            },
            ReadOutcome::TimedOut => ReaderAction::Idle,
            ReadOutcome::Closed => ReaderAction::Raise(ShutdownOrigin::PortClosed),
            ReadOutcome::Failed => ReaderAction::Raise(ShutdownOrigin::PortError),
        }
    }
}

/// Whether a pump still runs after the outcome of a read.
pub open spec fn reader_survives(running: bool, outcome: ReadOutcome) -> bool {
    running && !(outcome is Closed) && !(outcome is Failed)
}

/// The bytes that an action sends to the display.
pub open spec fn displayed(action: ReaderAction) -> Seq<u8> {
    match action {
        ReaderAction::Deliver(bytes) => bytes@,
        _ => Seq::empty(),
    }
}

/// The bytes that an outcome carries.
pub open spec fn carried(outcome: ReadOutcome) -> Seq<u8> {
    match outcome {
        ReadOutcome::Data(bytes) => bytes@,
        _ => Seq::empty(),
    }
}

/// The pump that drains the device.
#[derive(Clone, Copy, Debug, PartialEq, Eq)]
pub struct ReaderPump {
    running: bool,
    undisplayed: u64,
}

impl ReaderPump {
    /// What contracts see of the pump.
    pub closed spec fn view(&self) -> ReaderState {
        ReaderState { running: self.running, undisplayed: self.undisplayed as nat }
    }

    /// A pump that runs and has lost nothing.
    pub fn new() -> (pump: ReaderPump)
        ensures
            pump@ == (ReaderState { running: true, undisplayed: 0 }),
    {
        ReaderPump { running: true, undisplayed: 0 }
    }

    /// Begins a turn: the pump looks at the shutdown signal and says whether
    /// the driver may read. Once the signal is seen set, or the pump has
    /// stopped for another reason, the answer is no for good.
    pub fn proceed(&mut self, signal_set: bool) -> (go: bool)
        ensures
            go == (old(self)@.running && !signal_set),
            final(self)@ == (ReaderState { running: go, ..old(self)@ }),
    {
        if signal_set {
            self.running = false;
        }
        self.running
    }

    /// Takes the outcome of a read and says what to do with it. Bytes are
    /// handed on as they came; a failed read or the end of the stream stops
    /// the pump and raises the signal.
    pub fn on_read(&mut self, outcome: ReadOutcome) -> (action: ReaderAction)
        ensures
            action == reader_action(old(self)@.running, outcome),
            final(self)@ == (ReaderState {
                running: reader_survives(old(self)@.running, outcome),
                ..old(self)@
            }),
    {
        if !self.running {
            return ReaderAction::Idle;
        }
        match outcome {
            ReadOutcome::Data(bytes) => {
                if bytes.len() > 0 {
                    ReaderAction::Deliver(bytes)
                } else {
                    ReaderAction::Idle
                }
            },
            ReadOutcome::TimedOut => ReaderAction::Idle,
            ReadOutcome::Closed => {
                self.running = false;
                ReaderAction::Raise(ShutdownOrigin::PortClosed)
            },
            ReadOutcome::Failed => {
                self.running = false;
                ReaderAction::Raise(ShutdownOrigin::PortError)
            },
        }
    }

    /// Takes note of whether the display took a chunk. A chunk that it did
    /// not take is counted and the pump goes on: a display that fails does
    /// not end the session.
    pub fn on_display(&mut self, shown: bool)
        ensures
            final(self)@ == (ReaderState {
                undisplayed: if shown || old(self)@.undisplayed == u64::MAX {
                    old(self)@.undisplayed
                } else {
                    old(self)@.undisplayed + 1
                },
                ..old(self)@
            }),
    {
        if !shown && self.undisplayed < u64::MAX {
            self.undisplayed = self.undisplayed + 1;
        }
    }

    /// Whether the pump still takes turns.
    pub fn is_running(&self) -> (running: bool)
        ensures
            running == self@.running,
    {
        self.running
    }

    /// The number of chunks that the display did not take, counted up to
    /// the largest number that fits.
    pub fn undisplayed(&self) -> (count: u64)
        ensures
            count == self@.undisplayed,
    {
        self.undisplayed
    }
}

/// The bytes that a pump sends to the display while its driver hands it
/// `outcomes` in order.
pub open spec fn delivered(running: bool, outcomes: Seq<ReadOutcome>) -> Seq<u8>
    decreases outcomes.len(),
{
    if outcomes.len() == 0 {
        Seq::empty()
    } else {
        displayed(reader_action(running, outcomes.first())) + delivered(
            reader_survives(running, outcomes.first()),
            outcomes.drop_first(),
        )
    }
}

/// The bytes that `outcomes` carry, in the order in which they were read.
pub open spec fn received(outcomes: Seq<ReadOutcome>) -> Seq<u8>
    decreases outcomes.len(),
{
    if outcomes.len() == 0 {
        Seq::empty()
    } else {
        carried(outcomes.first()) + received(outcomes.drop_first())
    }
}

/// Whether none of `outcomes` ends the stream or reports a failure.
pub open spec fn device_holds(outcomes: Seq<ReadOutcome>) -> bool {
    forall|i: int|
        0 <= i < outcomes.len() ==> !(#[trigger] outcomes[i] is Closed) && !(outcomes[i] is Failed)
}

/// A pump that has stopped sends nothing to the display.
pub proof fn lemma_stopped_pump_delivers_nothing(outcomes: Seq<ReadOutcome>)
    ensures
        delivered(false, outcomes) == Seq::<u8>::empty(),
    decreases outcomes.len(),
{
    if outcomes.len() > 0 {
        lemma_stopped_pump_delivers_nothing(outcomes.drop_first());
    }
}

/// Bytes arrive as they were sent: as long as the device neither fails nor
/// ends its stream, what a running pump sends to the display is what the
/// reads brought, byte for byte and in order, however the bytes were split
/// over the reads and however many reads came back empty.
pub proof fn lemma_byte_fidelity(outcomes: Seq<ReadOutcome>)
    requires
        device_holds(outcomes),
    ensures
        delivered(true, outcomes) == received(outcomes),
    decreases outcomes.len(),
{
    if outcomes.len() > 0 {
        let rest = outcomes.drop_first();
        assert(device_holds(rest)) by {
            assert forall|i: int| 0 <= i < rest.len() implies !(#[trigger] rest[i] is Closed) && !(
            rest[i] is Failed) by {
                assert(rest[i] == outcomes[i + 1]);
            }
        }
        lemma_byte_fidelity(rest);
        assert(outcomes.first() == outcomes[0]);
    }
}

/// Up to the read that fails or ends the stream, bytes arrive as they were
/// sent, and after it nothing arrives: if the read at `stop` is the first
/// one that is not held, what a running pump sends to the display is what
/// the reads before `stop` brought.
pub proof fn lemma_fidelity_until_failure(outcomes: Seq<ReadOutcome>, stop: int)
    requires
        0 <= stop < outcomes.len(),
        device_holds(outcomes.take(stop)),
        outcomes[stop] is Closed || outcomes[stop] is Failed,
    ensures
        delivered(true, outcomes) == received(outcomes.take(stop)),
    decreases outcomes.len(),
{
    let rest = outcomes.drop_first();
    if stop == 0 {
        assert(outcomes.take(0) =~= Seq::<ReadOutcome>::empty());
        lemma_stopped_pump_delivers_nothing(rest);
    } else {
        assert(outcomes.take(stop)[0] == outcomes[0]);
        assert(rest.take(stop - 1) =~= outcomes.take(stop).drop_first());
        assert(device_holds(rest.take(stop - 1))) by {
            assert forall|i: int| 0 <= i < rest.take(stop - 1).len() implies !(
            #[trigger] rest.take(stop - 1)[i] is Closed) && !(rest.take(stop - 1)[i] is Failed) by {
                assert(rest.take(stop - 1)[i] == outcomes.take(stop)[i + 1]);
            }
        }
        lemma_fidelity_until_failure(rest, stop - 1);
    }
}

} // verus!
