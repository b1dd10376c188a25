//! The pump that moves keystrokes to the device and watches for the exit
//! byte.
//!
//! Raw mode keeps the terminal from acting on control characters, so the
//! pump itself has to see the request to leave. The exit byte counts only
//! as the first byte of a chunk of input: there it ends the session and
//! nothing of the chunk is sent. Anywhere else it is a byte like any other
//! and goes to the device with the rest of its chunk.

use vstd::prelude::*;
use crate::signal::ShutdownOrigin;

verus! {

/// The exit byte of a session that names no other: the byte that Ctrl+C
/// sends.
pub const DEFAULT_EXIT_BYTE: u8 = 0x03;

/// What one wait for local input brought.
#[derive(Debug, PartialEq, Eq)]
pub enum InputEvent {
    /// The bytes typed, in the order typed.
    Chunk(Vec<u8>),
    /// The wait ended without input.
    TimedOut,
    /// The local input has come to its end: nothing more can be typed.
    Closed,
}

/// What the pump asks its driver to do after a wait for input.
#[derive(Debug, PartialEq, Eq)]
pub enum WriterAction {
    /// Write these bytes to the device as they are.
    Forward(Vec<u8>),
    /// Nothing to write: go on with the next turn.
    Idle,
    /// Raise the shutdown signal with this origin; the pump has stopped.
    Raise(ShutdownOrigin),
}

/// What contracts see of a writer pump.
pub struct WriterState {
    /// The byte that ends the session where it begins a chunk.
    pub exit_byte: u8,
    /// Whether the pump still takes turns.
    pub running: bool,
}

/// Whether a chunk is a request to leave: its first byte is the exit byte.
pub open spec fn is_exit_request(exit_byte: u8, chunk: Seq<u8>) -> bool {
    chunk.len() > 0 && chunk[0] == exit_byte
}

/// The answer of a pump to what a wait for input brought.
pub open spec fn writer_action(state: WriterState, event: InputEvent) -> WriterAction {
    if !state.running {
        WriterAction::Idle
    } else {
        match event {
            InputEvent::Chunk(bytes) => if bytes@.len() == 0 {
                WriterAction::Idle
            } else if bytes@[0] == state.exit_byte {
                WriterAction::Raise(ShutdownOrigin::UserExitKeystroke)
            } else {
                WriterAction::Forward(bytes)
            },
            InputEvent::TimedOut => WriterAction::Idle,
            InputEvent::Closed => WriterAction::Raise(ShutdownOrigin::ExternalInterrupt),
        }
    }
}

/// Whether an event ends a running pump.
pub open spec fn ends_input(exit_byte: u8, event: InputEvent) -> bool {
    match event {
        InputEvent::Chunk(bytes) => is_exit_request(exit_byte, bytes@),
        InputEvent::TimedOut => false,
        InputEvent::Closed => true,
    }
}

/// The state of a pump after what a wait for input brought.
pub open spec fn after_input(state: WriterState, event: InputEvent) -> WriterState {
    WriterState { running: state.running && !ends_input(state.exit_byte, event), ..state }
}

/// The bytes that an action sends to the device.
pub open spec fn sent(action: WriterAction) -> Seq<u8> {
    match action {
        WriterAction::Forward(bytes) => bytes@,
        _ => Seq::empty(),
    }
}

/// The bytes that an event carries.
pub open spec fn typed(event: InputEvent) -> Seq<u8> {
    match event {
        InputEvent::Chunk(bytes) => bytes@,
        _ => Seq::empty(),
    }
}

/// The pump that drains the local input.
#[derive(Clone, Copy, Debug, PartialEq, Eq)]
pub struct WriterPump {
    exit_byte: u8,
    running: bool,
}

impl WriterPump {
    /// What contracts see of the pump.
    pub closed spec fn view(&self) -> WriterState {
        WriterState { exit_byte: self.exit_byte, running: self.running }
    }

    /// A running pump that takes `exit_byte` at the start of a chunk as the
    /// request to leave.
    pub fn new(exit_byte: u8) -> (pump: WriterPump)
        ensures
            pump@ == (WriterState { exit_byte, running: true }),
    {
        WriterPump { exit_byte, running: true }
    }

    /// Begins a turn: the pump looks at the shutdown signal and says whether
    /// the driver may wait for input. Once the signal is seen set, or the
    /// pump has stopped for another reason, the answer is no for good.
    pub fn proceed(&mut self, signal_set: bool) -> (go: bool)
        ensures
            go == (old(self)@.running && !signal_set),
            final(self)@ == (WriterState { running: go, ..old(self)@ }),
    {
        if signal_set {
            self.running = false;
        }
        self.running
    }

    /// Takes what a wait for input brought and says what to do with it. A
    /// chunk that begins with the exit byte stops the pump and raises the
    /// signal, and none of its bytes is sent; any other chunk is handed on
    /// as it came.
    pub fn on_input(&mut self, event: InputEvent) -> (action: WriterAction)
        ensures
            action == writer_action(old(self)@, event),
            final(self)@ == after_input(old(self)@, event),
    {
        if !self.running {
            return WriterAction::Idle;
        }
        match event {
            InputEvent::Chunk(bytes) => {
                if bytes.len() == 0 {
                    WriterAction::Idle
                } else if bytes[0] == self.exit_byte {
                    self.running = false;
                    WriterAction::Raise(ShutdownOrigin::UserExitKeystroke)
                } else {
                    WriterAction::Forward(bytes)
                }
            },
            InputEvent::TimedOut => WriterAction::Idle,
            InputEvent::Closed => {
                self.running = false;
                WriterAction::Raise(ShutdownOrigin::ExternalInterrupt)
            },
        }
    }

    /// Takes note of whether the device took the bytes in full. A write
    /// that failed, or wrote only a part, stops a running pump; the origin
    /// to raise the signal with is returned.
    pub fn on_write(&mut self, written: bool) -> (raise: Option<ShutdownOrigin>)
        ensures
            raise == if old(self)@.running && !written {
                Some(ShutdownOrigin::WriterError)
            } else {
                None
            },
            final(self)@ == (WriterState { running: old(self)@.running && written, ..old(self)@ }),
    {
        if self.running && !written {
            self.running = false;
            Some(ShutdownOrigin::WriterError)
        } else {
            None
        }
    }

    /// Whether the pump still takes turns.
    pub fn is_running(&self) -> (running: bool)
        ensures
            running == self@.running,
    {
        self.running
    }

    /// The byte that ends the session where it begins a chunk.
    pub fn exit_byte(&self) -> (byte: u8)
        ensures
            byte == self@.exit_byte,
    {
        self.exit_byte
    }
}

/// The bytes that a pump sends to a device that takes every write, while
/// its driver hands it `events` in order.
pub open spec fn forwarded(state: WriterState, events: Seq<InputEvent>) -> Seq<u8>
    decreases events.len(),
{
    if events.len() == 0 {
        Seq::empty()
    } else {
        sent(writer_action(state, events.first())) + forwarded(
            after_input(state, events.first()),
            events.drop_first(),
        )
    }
}

/// The bytes that `events` carry, in the order typed.
pub open spec fn typed_all(events: Seq<InputEvent>) -> Seq<u8>
    decreases events.len(),
{
    if events.len() == 0 {
        Seq::empty()
    } else {
        typed(events.first()) + typed_all(events.drop_first())
    }
}

/// Whether none of `events` ends the input or asks to leave.
pub open spec fn input_goes_on(exit_byte: u8, events: Seq<InputEvent>) -> bool {
    forall|i: int| 0 <= i < events.len() ==> !ends_input(exit_byte, #[trigger] events[i])
}

/// An exit byte at the start of a chunk never reaches the device, and
/// neither does the rest of that chunk.
pub proof fn lemma_exit_request_sends_nothing(exit_byte: u8, chunk: Vec<u8>)
    requires
        is_exit_request(exit_byte, chunk@),
    ensures
        ({
            let state = WriterState { exit_byte, running: true };
            let action = writer_action(state, InputEvent::Chunk(chunk));
            &&& action == WriterAction::Raise(ShutdownOrigin::UserExitKeystroke)
            &&& sent(action) == Seq::<u8>::empty()
            &&& !after_input(state, InputEvent::Chunk(chunk)).running
        }),
{
}

/// An exit byte that does not begin its chunk is a byte like any other: a
/// chunk that begins with another byte goes to the device whole, exit bytes
/// and all.
pub proof fn lemma_exit_byte_inside_chunk_is_sent(exit_byte: u8, chunk: Vec<u8>)
    requires
        chunk@.len() > 0,
        chunk@[0] != exit_byte,
    ensures
        ({
            let state = WriterState { exit_byte, running: true };
            let action = writer_action(state, InputEvent::Chunk(chunk));
            &&& action == WriterAction::Forward(chunk)
            &&& sent(action) == chunk@
            &&& after_input(state, InputEvent::Chunk(chunk)).running
        }),
{
}

/// A pump that has stopped sends nothing to the device.
pub proof fn lemma_stopped_pump_forwards_nothing(exit_byte: u8, events: Seq<InputEvent>)
    ensures
        forwarded(WriterState { exit_byte, running: false }, events) == Seq::<u8>::empty(),
    decreases events.len(),
{
    if events.len() > 0 {
        lemma_stopped_pump_forwards_nothing(exit_byte, events.drop_first());
    }
}

/// Keystrokes arrive as they were typed: as long as the input goes on and
/// no chunk asks to leave, what a running pump sends to the device is what
/// was typed, byte for byte and in order.
pub proof fn lemma_keystrokes_are_forwarded(exit_byte: u8, events: Seq<InputEvent>)
    requires
        input_goes_on(exit_byte, events),
    ensures
        forwarded(WriterState { exit_byte, running: true }, events) == typed_all(events),
    decreases events.len(),
{
    if events.len() > 0 {
        let rest = events.drop_first();
        assert(input_goes_on(exit_byte, rest)) by {
            assert forall|i: int| 0 <= i < rest.len() implies !ends_input(
                exit_byte,
                #[trigger] rest[i],
            ) by {
                assert(rest[i] == events[i + 1]);
            }
        }
        lemma_keystrokes_are_forwarded(exit_byte, rest);
        assert(events.first() == events[0]);
    }
}

/// From the request to leave on nothing reaches the device: if the event at
/// `stop` is the first that asks to leave or ends the input, what a running
/// pump sends to the device is what was typed before `stop`. The exit byte
/// that begins the chunk at `stop` is not among it.
pub proof fn lemma_nothing_forwarded_after_exit(
    exit_byte: u8,
    events: Seq<InputEvent>,
    stop: int,
)
    requires
        0 <= stop < events.len(),
        input_goes_on(exit_byte, events.take(stop)),
        ends_input(exit_byte, events[stop]),
    ensures
        forwarded(WriterState { exit_byte, running: true }, events) == typed_all(
            events.take(stop),
        ),
    decreases events.len(),
{
    let rest = events.drop_first();
    if stop == 0 {
        assert(events.take(0) =~= Seq::<InputEvent>::empty());
        lemma_stopped_pump_forwards_nothing(exit_byte, rest);
    } else {
        assert(events.take(stop)[0] == events[0]);
        assert(rest.take(stop - 1) =~= events.take(stop).drop_first());
        assert(input_goes_on(exit_byte, rest.take(stop - 1))) by {
            assert forall|i: int| 0 <= i < rest.take(stop - 1).len() implies !ends_input(
                exit_byte,
                #[trigger] rest.take(stop - 1)[i],
            ) by {
                assert(rest.take(stop - 1)[i] == events.take(stop)[i + 1]);
            }
        }
        lemma_nothing_forwarded_after_exit(exit_byte, rest, stop - 1);
    }
}

} // verus!
