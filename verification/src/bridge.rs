//! The life of a session: `Idle`, `Connecting`, `Interactive`, `Draining`,
//! `Closed`.
//!
//! The bridge is told what happened and answers with what has to be done
//! next. It never touches the terminal or the device itself; whoever drives
//! it carries the directives out and reports back.

use vstd::prelude::*;
use crate::signal::{ShutdownOrigin, ShutdownSignal};
use crate::terminal::{
    Acquisition,
    Restore,
    TerminalError,
    TerminalMode,
    TerminalSession,
    restore_of,
    mode_after_restore,
};

verus! {

/// The five phases of a session.
#[derive(Clone, Copy, Debug, PartialEq, Eq, Structural)]
pub enum Phase {
    Idle,
    Connecting,
    Interactive,
    Draining,
    Closed,
}

/// One of the two pumps of a session.
#[derive(Clone, Copy, Debug, PartialEq, Eq, Structural)]
pub enum Pump {
    /// Moves bytes from the device to the display.
    Reader,
    /// Moves bytes from the keyboard to the device.
    Writer,
}

/// The pumps that have not stopped yet.
#[derive(Clone, Copy, Debug, PartialEq, Eq, Structural)]
pub enum Pending {
    Both,
    Reader,
    Writer,
}

/// Why a session could not be started.
#[derive(Clone, Copy, Debug, PartialEq, Eq, Structural)]
pub enum SessionError {
    /// The terminal could not be switched to raw mode.
    Terminal(TerminalError),
    /// The device could not be opened, or its handle was of no use.
    Open,
}

/// How a session that was started came to its end.
#[derive(Clone, Copy, Debug, PartialEq, Eq, Structural)]
pub struct ExitReport {
    /// The origin of the shutdown signal that was recorded.
    pub origin: ShutdownOrigin,
}

/// What the bridge is told.
#[derive(Clone, Copy, Debug, PartialEq, Eq, Structural)]
pub enum BridgeEvent {
    /// The session is to begin.
    Start,
    /// The terminal is in raw mode now; it was in the given mode before.
    TerminalEntered(TerminalMode),
    /// The terminal could not be switched to raw mode.
    TerminalFailed,
    /// The device is open.
    PortOpened,
    /// The device could not be opened, or its handle could not be used.
    PortFailed,
    /// Both pumps are running.
    PumpsSpawned,
    /// A shutdown signal was raised with the given origin.
    Signal(ShutdownOrigin),
    /// The given pump has come to its end.
    PumpStopped(Pump),
    /// The session is torn down at once, without waiting for the pumps.
    Abort,
}

/// What the bridge asks for.
#[derive(Clone, Copy, Debug, PartialEq, Eq, Structural)]
pub enum Directive {
    /// Nothing is to be done.
    Nothing,
    /// Switch the terminal to raw mode, and the screen to the alternate
    /// buffer if asked, and report the mode it was in.
    EnterTerminal { alternate_screen: bool },
    /// Open the device.
    OpenPort,
    /// Start both pumps.
    SpawnPumps,
    /// Ask both pumps to stop at their next turn.
    StopPumps,
    /// Put the terminal back as `restore` says and close the device if
    /// `close_port` is set. The session is closed.
    Release { restore: Restore, close_port: bool },
}

/// The state of a session as contracts see it. Each value carries what the
/// session holds in that state and nothing else.
#[derive(Clone, Copy, Debug, PartialEq, Eq)]
pub enum BridgeState {
    /// Nothing has happened yet.
    Idle,
    /// Connecting: the terminal has been asked for.
    AwaitingTerminal,
    /// Connecting: the terminal is held, the device has been asked for.
    AwaitingPort { held: Acquisition },
    /// Connecting: terminal and device are held, the pumps are starting.
    AwaitingPumps { held: Acquisition },
    /// Both pumps are running and no shutdown signal has fired.
    Interactive { held: Acquisition },
    /// The signal has fired with `origin`; `pending` pumps still run.
    Draining { held: Acquisition, origin: ShutdownOrigin, pending: Pending },
    /// The session is over and everything it held has been given up.
    Closed { outcome: Result<ExitReport, SessionError> },
}

/// The phase that a state belongs to.
pub open spec fn phase_of(state: BridgeState) -> Phase {
    match state {
        BridgeState::Idle => Phase::Idle,
        BridgeState::AwaitingTerminal => Phase::Connecting,
        BridgeState::AwaitingPort { .. } => Phase::Connecting,
        BridgeState::AwaitingPumps { .. } => Phase::Connecting,
        BridgeState::Interactive { .. } => Phase::Interactive,
        BridgeState::Draining { .. } => Phase::Draining,
        BridgeState::Closed { .. } => Phase::Closed,
    }
}

/// The terminal record that a state holds.
pub open spec fn held_of(state: BridgeState) -> Option<Acquisition> {
    match state {
        BridgeState::AwaitingPort { held } => Some(held),
        BridgeState::AwaitingPumps { held } => Some(held),
        BridgeState::Interactive { held } => Some(held),
        BridgeState::Draining { held, .. } => Some(held),
        _ => None,
    }
}

/// Whether the device is open in a state.
pub open spec fn port_open_in(state: BridgeState) -> bool {
    match state {
        BridgeState::AwaitingPumps { .. } => true,
        BridgeState::Interactive { .. } => true,
        BridgeState::Draining { .. } => true,
        _ => false,
    }
}

/// The origin of the shutdown signal that a state has on record.
pub open spec fn origin_of(state: BridgeState) -> Option<ShutdownOrigin> {
    match state {
        BridgeState::Draining { origin, .. } => Some(origin),
        BridgeState::Closed { outcome: Ok(report) } => Some(report.origin),
        _ => None,
    }
}

/// The origin recorded for a pump that stopped although no signal had fired.
pub open spec fn fault_origin(pump: Pump) -> ShutdownOrigin {
    match pump {
        Pump::Reader => ShutdownOrigin::PortError,
        Pump::Writer => ShutdownOrigin::WriterError,
    }
}

/// The pumps that still run once `pump` has stopped, `None` where none is
/// left.
pub open spec fn remaining(pending: Pending, pump: Pump) -> Option<Pending> {
    match pending {
        Pending::Both => match pump {
            Pump::Reader => Some(Pending::Writer),
            Pump::Writer => Some(Pending::Reader),
        },
        Pending::Reader => match pump {
            Pump::Reader => None,
            Pump::Writer => Some(Pending::Reader),
        },
        Pending::Writer => match pump {
            Pump::Reader => Some(Pending::Writer),
            Pump::Writer => None,
        },
    }
}

/// The step into `Closed` from `state`: everything held is released.
pub open spec fn closing(state: BridgeState, outcome: Result<ExitReport, SessionError>) -> (
    BridgeState,
    Directive,
) {
    (
        BridgeState::Closed { outcome },
        Directive::Release { restore: restore_of(held_of(state)), close_port: port_open_in(state) },
    )
}

/// The state after `event` and the directive that answers it. An event that
/// a state does not expect changes nothing and asks for nothing.
pub open spec fn step(alternate_screen: bool, state: BridgeState, event: BridgeEvent) -> (
    BridgeState,
    Directive,
) {
    let ignored = (state, Directive::Nothing);
    match state {
        BridgeState::Closed { .. } => ignored,
        _ => match event {
            BridgeEvent::Abort => closing(
                state,
                Ok(
                    ExitReport {
                        origin: match origin_of(state) {
                            Some(origin) => origin,
                            None => ShutdownOrigin::ExternalInterrupt,
                        },
                    },
                ),
            ),
            BridgeEvent::Start => match state {
                BridgeState::Idle => (
                    BridgeState::AwaitingTerminal,
                    Directive::EnterTerminal { alternate_screen },
                ),
                _ => ignored,
            },
            BridgeEvent::TerminalEntered(previous) => match state {
                BridgeState::AwaitingTerminal => (
                    BridgeState::AwaitingPort { held: Acquisition { previous, alternate_screen } },
                    Directive::OpenPort,
                ),
                _ => ignored,
            },
            BridgeEvent::TerminalFailed => match state {
                BridgeState::AwaitingTerminal => closing(
                    state,
                    Err(SessionError::Terminal(TerminalError::NotInteractive)),
                ),
                _ => ignored,
            },
            BridgeEvent::PortOpened => match state {
                BridgeState::AwaitingPort { held } => (
                    BridgeState::AwaitingPumps { held },
                    Directive::SpawnPumps,
                ),
                _ => ignored,
            },
            BridgeEvent::PortFailed => match state {
                BridgeState::AwaitingPort { .. } => closing(state, Err(SessionError::Open)),
                BridgeState::AwaitingPumps { .. } => closing(state, Err(SessionError::Open)),
                _ => ignored,
            },
            BridgeEvent::PumpsSpawned => match state {
                BridgeState::AwaitingPumps { held } => (
                    BridgeState::Interactive { held },
                    Directive::Nothing,
                ),
                _ => ignored,
            },
            BridgeEvent::Signal(origin) => match state {
                BridgeState::Interactive { held } => (
                    BridgeState::Draining { held, origin, pending: Pending::Both },
                    Directive::StopPumps,
                ),
                _ => ignored,
            },
            BridgeEvent::PumpStopped(pump) => match state {
                BridgeState::Interactive { held } => (
                    BridgeState::Draining {
                        held,
                        origin: fault_origin(pump),
                        pending: remaining(Pending::Both, pump).unwrap(),
                    },
                    Directive::StopPumps,
                ),
                BridgeState::Draining { held, origin, pending } => match remaining(pending, pump) {
                    Some(rest) => (
                        BridgeState::Draining { held, origin, pending: rest },
                        Directive::Nothing,
                    ),
                    None => closing(state, Ok(ExitReport { origin })),
                },
                _ => ignored,
            },
        },
    }
}

/// How a session ended, `None` while it has not.
pub open spec fn outcome_of(state: BridgeState) -> Option<Result<ExitReport, SessionError>> {
    match state {
        BridgeState::Closed { outcome } => Some(outcome),
        _ => None,
    }
}

/// Where the bridge stands, without what it holds.
#[derive(Clone, Copy, Debug, PartialEq, Eq)]
enum Stage {
    Idle,
    AwaitingTerminal,
    AwaitingPort,
    AwaitingPumps,
    Interactive,
    Draining(Pending),
    Closed(Result<ExitReport, SessionError>),
}

/// The supervisor of one session. It owns the record of the terminal's mode
/// and the shutdown signal, and is not used again once it is closed.
#[derive(Clone, Copy, Debug, PartialEq, Eq)]
pub struct Bridge {
    alternate_screen: bool,
    terminal: TerminalSession,
    signal: ShutdownSignal,
    stage: Stage,
}

impl Bridge {
    /// The terminal is on record exactly while the session holds it, and the
    /// signal has fired exactly from `Draining` on.
    #[verifier::type_invariant]
    spec fn consistent(&self) -> bool {
        match self.stage {
            Stage::Idle => self.terminal@ is None && self.signal@ is None,
            Stage::AwaitingTerminal => self.terminal@ is None && self.signal@ is None,
            Stage::AwaitingPort => self.terminal@ is Some && self.signal@ is None,
            Stage::AwaitingPumps => self.terminal@ is Some && self.signal@ is None,
            Stage::Interactive => self.terminal@ is Some && self.signal@ is None,
            Stage::Draining(_) => self.terminal@ is Some && self.signal@ is Some,
            Stage::Closed(_) => self.terminal@ is None,
        }
    }

    /// The state of the session.
    pub closed spec fn view(&self) -> BridgeState {
        match self.stage {
            Stage::Idle => BridgeState::Idle,
            Stage::AwaitingTerminal => BridgeState::AwaitingTerminal,
            Stage::AwaitingPort => BridgeState::AwaitingPort { held: self.terminal@.unwrap() },
            Stage::AwaitingPumps => BridgeState::AwaitingPumps { held: self.terminal@.unwrap() },
            Stage::Interactive => BridgeState::Interactive { held: self.terminal@.unwrap() },
            Stage::Draining(pending) => BridgeState::Draining {
                held: self.terminal@.unwrap(),
                origin: self.signal@.unwrap(),
                pending,
            },
            Stage::Closed(outcome) => BridgeState::Closed { outcome },
        }
    }

    /// Whether the session switches the screen to the alternate buffer.
    pub closed spec fn alternate_screen(&self) -> bool {
        self.alternate_screen
    }

    /// A bridge for a session that has not begun.
    pub fn new(alternate_screen: bool) -> (bridge: Bridge)
        ensures
            bridge@ == BridgeState::Idle,
            bridge.alternate_screen() == alternate_screen,
    {
        Bridge {
            alternate_screen,
            terminal: TerminalSession::new(),
            signal: ShutdownSignal::new(),
            stage: Stage::Idle,
        }
    }

    /// Takes note of `event` and answers with what has to be done next.
    pub fn handle(&mut self, event: BridgeEvent) -> (directive: Directive)
        ensures
            final(self).alternate_screen() == old(self).alternate_screen(),
            (final(self)@, directive) == step(old(self).alternate_screen(), old(self)@, event),
    {
        proof {
            use_type_invariant(&*self);
        }
        let alternate_screen = self.alternate_screen;
        let stage = self.stage;
        let mut terminal = self.terminal;
        let mut signal = self.signal;
        let port_open = match stage {
            Stage::AwaitingPumps => true,
            Stage::Interactive => true,
            Stage::Draining(_) => true,
            _ => false,
        };
        let ignored = (stage, Directive::Nothing);
        let (next, directive) = match stage {
            Stage::Closed(_) => ignored,
            _ => match event {
                BridgeEvent::Abort => {
                    signal.fire(ShutdownOrigin::ExternalInterrupt);
                    let report = ExitReport { origin: signal.origin().unwrap() };
                    let restore = terminal.leave();
                    (Stage::Closed(Ok(report)), Directive::Release { restore, close_port: port_open })
                },
                BridgeEvent::Start => match stage {
                    Stage::Idle => (
                        Stage::AwaitingTerminal,
                        Directive::EnterTerminal { alternate_screen },
                    ),
                    _ => ignored,
                },
                BridgeEvent::TerminalEntered(previous) => match stage {
                    Stage::AwaitingTerminal => {
                        let _ = terminal.enter(Some(previous), alternate_screen);
                        (Stage::AwaitingPort, Directive::OpenPort)
                    },
                    _ => ignored,
                },
                BridgeEvent::TerminalFailed => match stage {
                    Stage::AwaitingTerminal => {
                        let restore = terminal.leave();
                        (
                            Stage::Closed(Err(SessionError::Terminal(TerminalError::NotInteractive))),
                            Directive::Release { restore, close_port: false },
                        )
                    },
                    _ => ignored,
                },
                BridgeEvent::PortOpened => match stage {
                    Stage::AwaitingPort => (Stage::AwaitingPumps, Directive::SpawnPumps),
                    _ => ignored,
                },
                BridgeEvent::PortFailed => match stage {
                    Stage::AwaitingPort => {
                        let restore = terminal.leave();
                        (
                            Stage::Closed(Err(SessionError::Open)),
                            Directive::Release { restore, close_port: port_open },
                        )
                    },
                    Stage::AwaitingPumps => {
                        let restore = terminal.leave();
                        (
                            Stage::Closed(Err(SessionError::Open)),
                            Directive::Release { restore, close_port: port_open },
                        )
                    },
                    _ => ignored,
                },
                BridgeEvent::PumpsSpawned => match stage {
                    Stage::AwaitingPumps => (Stage::Interactive, Directive::Nothing),
                    _ => ignored,
                },
                BridgeEvent::Signal(origin) => match stage {
                    Stage::Interactive => {
                        signal.fire(origin);
                        (Stage::Draining(Pending::Both), Directive::StopPumps)
                    },
                    _ => ignored,
                },
                BridgeEvent::PumpStopped(pump) => match stage {
                    Stage::Interactive => {
                        signal.fire(fault_of(pump));
                        (Stage::Draining(still_running(Pending::Both, pump).unwrap()), Directive::StopPumps)
                    },
                    Stage::Draining(pending) => match still_running(pending, pump) {
                        Some(rest) => (Stage::Draining(rest), Directive::Nothing),
                        None => {
                            let report = ExitReport { origin: signal.origin().unwrap() };
                            let restore = terminal.leave();
                            (
                                Stage::Closed(Ok(report)),
                                Directive::Release { restore, close_port: port_open },
                            )
                        },
                    },
                    _ => ignored,
                },
            },
        };
        *self = Bridge { alternate_screen, terminal, signal, stage: next };
        directive
    }

    /// The phase that the session is in.
    pub fn phase(&self) -> (phase: Phase)
        ensures
            phase == phase_of(self@),
    {
        match self.stage {
            Stage::Idle => Phase::Idle,
            Stage::AwaitingTerminal => Phase::Connecting,
            Stage::AwaitingPort => Phase::Connecting,
            Stage::AwaitingPumps => Phase::Connecting,
            Stage::Interactive => Phase::Interactive,
            Stage::Draining(_) => Phase::Draining,
            Stage::Closed(_) => Phase::Closed,
        }
    }

    /// How the session ended: the report of a session that ran, or the error
    /// that kept it from starting. `None` while the session is not closed.
    pub fn outcome(&self) -> (outcome: Option<Result<ExitReport, SessionError>>)
        ensures
            outcome == outcome_of(self@),
    {
        match self.stage {
            Stage::Closed(outcome) => Some(outcome),
            _ => None,
        }
    }
}

/// The origin recorded for `pump` where it stopped without a signal.
fn fault_of(pump: Pump) -> (origin: ShutdownOrigin)
    ensures
        origin == fault_origin(pump),
{
    match pump {
        Pump::Reader => ShutdownOrigin::PortError,
        Pump::Writer => ShutdownOrigin::WriterError,
    }
}

/// The pumps that still run once `pump` has stopped.
fn still_running(pending: Pending, pump: Pump) -> (rest: Option<Pending>)
    ensures
        rest == remaining(pending, pump),
{
    match pending {
        Pending::Both => match pump {
            Pump::Reader => Some(Pending::Writer),
            Pump::Writer => Some(Pending::Reader),
        },
        Pending::Reader => match pump {
            Pump::Reader => None,
            Pump::Writer => Some(Pending::Reader),
        },
        Pending::Writer => match pump {
            Pump::Reader => Some(Pending::Writer),
            Pump::Writer => None,
        },
    }
}

/// The place of a phase in the order in which a session passes through
/// them.
pub open spec fn rank(phase: Phase) -> nat {
    match phase {
        Phase::Idle => 0,
        Phase::Connecting => 1,
        Phase::Interactive => 2,
        Phase::Draining => 3,
        Phase::Closed => 4,
    }
}

/// The state of a session that was idle and has been told `events` in
/// order.
pub open spec fn replay(alternate_screen: bool, events: Seq<BridgeEvent>) -> BridgeState
    decreases events.len(),
{
    if events.len() == 0 {
        BridgeState::Idle
    } else {
        step(alternate_screen, replay(alternate_screen, events.drop_last()), events.last()).0
    }
}

/// The mode of the terminal after one step of the bridge, for a driver that
/// switches to raw mode before it reports the terminal as entered and
/// carries out what a release asks for.
pub open spec fn mode_after_step(
    mode: TerminalMode,
    before: BridgeState,
    after: BridgeState,
    directive: Directive,
) -> TerminalMode {
    if held_of(before) is None && held_of(after) is Some {
        TerminalMode::Raw
    } else {
        match directive {
            Directive::Release { restore, .. } => mode_after_restore(mode, restore),
            _ => mode,
        }
    }
}

/// The mode of a terminal that was in `initial` when the session was idle,
/// after the session has been told `events`.
pub open spec fn terminal_mode(
    alternate_screen: bool,
    initial: TerminalMode,
    events: Seq<BridgeEvent>,
) -> TerminalMode
    decreases events.len(),
{
    if events.len() == 0 {
        initial
    } else {
        let before = replay(alternate_screen, events.drop_last());
        let (after, directive) = step(alternate_screen, before, events.last());
        mode_after_step(
            terminal_mode(alternate_screen, initial, events.drop_last()),
            before,
            after,
            directive,
        )
    }
}

/// Whether every report of an entered terminal in `events` names `initial`
/// as the mode that was active before.
pub open spec fn reports_mode(initial: TerminalMode, events: Seq<BridgeEvent>) -> bool {
    forall|i: int|
        0 <= i < events.len() ==> (#[trigger] events[i] matches BridgeEvent::TerminalEntered(
            previous,
        ) ==> previous == initial)
}

/// A session only moves forward through its phases, and a closed session
/// stays as it is and asks for nothing.
pub proof fn lemma_step_moves_forward(
    alternate_screen: bool,
    state: BridgeState,
    event: BridgeEvent,
)
    ensures
        rank(phase_of(state)) <= rank(phase_of(step(alternate_screen, state, event).0)),
        phase_of(state) == Phase::Closed ==> step(alternate_screen, state, event) == (
            state,
            Directive::Nothing,
        ),
{
}

/// A release is asked for exactly by the step that closes the session. It
/// names the mode that the session had on record and the alternate screen
/// if the session had entered it, asks for the device to be closed exactly
/// if it was open, and leaves nothing held.
pub proof fn lemma_release_on_closing(
    alternate_screen: bool,
    state: BridgeState,
    event: BridgeEvent,
)
    ensures
        ({
            let (after, directive) = step(alternate_screen, state, event);
            let closes = phase_of(state) != Phase::Closed && phase_of(after) == Phase::Closed;
            &&& directive is Release <==> closes
            &&& closes ==> directive == (Directive::Release {
                restore: restore_of(held_of(state)),
                close_port: port_open_in(state),
            })
            &&& phase_of(after) == Phase::Closed ==> held_of(after) is None && !port_open_in(after)
        }),
{
}

/// The number of releases that a session asks for while it is told
/// `events`.
pub open spec fn releases(alternate_screen: bool, events: Seq<BridgeEvent>) -> nat
    decreases events.len(),
{
    if events.len() == 0 {
        0
    } else {
        let before = replay(alternate_screen, events.drop_last());
        let asked: nat = if step(alternate_screen, before, events.last()).1 is Release {
            1
        } else {
            0
        };
        releases(alternate_screen, events.drop_last()) + asked
    }
}

/// What a session holds is released exactly once: whatever a session is
/// told, it has asked for one release if it is closed and for none if it is
/// not.
pub proof fn lemma_released_once(alternate_screen: bool, events: Seq<BridgeEvent>)
    ensures
        releases(alternate_screen, events) == if phase_of(replay(alternate_screen, events))
            == Phase::Closed {
            1nat
        } else {
            0nat
        },
    decreases events.len(),
{
    if events.len() > 0 {
        let prefix = events.drop_last();
        lemma_released_once(alternate_screen, prefix);
        lemma_release_on_closing(alternate_screen, replay(alternate_screen, prefix), events.last());
        lemma_step_moves_forward(alternate_screen, replay(alternate_screen, prefix), events.last());
    }
}

/// The first origin wins: once a state has an origin on record, no event
/// changes it.
pub proof fn lemma_recorded_origin_stays(
    alternate_screen: bool,
    state: BridgeState,
    event: BridgeEvent,
)
    requires
        origin_of(state) is Some,
    ensures
        origin_of(step(alternate_screen, state, event).0) == origin_of(state),
{
}

/// Of two signals raised one after the other in an interactive session, the
/// first is recorded, whatever the second is.
pub proof fn lemma_first_signal_wins(
    alternate_screen: bool,
    held: Acquisition,
    first: ShutdownOrigin,
    second: ShutdownOrigin,
)
    ensures
        ({
            let once = step(
                alternate_screen,
                BridgeState::Interactive { held },
                BridgeEvent::Signal(first),
            );
            let twice = step(alternate_screen, once.0, BridgeEvent::Signal(second));
            &&& origin_of(once.0) == Some(first)
            &&& once.1 == Directive::StopPumps
            &&& twice == (once.0, Directive::Nothing)
        }),
{
}

/// Draining ends when both pumps have stopped, and not before: after the
/// signal has fired the session stays in `Draining` when the first pump
/// reports its end, whichever it is and however often it reports, and
/// closes with the recorded origin when the other one does.
pub proof fn lemma_drained_when_both_stopped(
    alternate_screen: bool,
    held: Acquisition,
    origin: ShutdownOrigin,
    first: Pump,
    second: Pump,
)
    ensures
        ({
            let draining = BridgeState::Draining { held, origin, pending: Pending::Both };
            let one = step(alternate_screen, draining, BridgeEvent::PumpStopped(first));
            let two = step(alternate_screen, one.0, BridgeEvent::PumpStopped(second));
            &&& phase_of(one.0) == Phase::Draining
            &&& one.1 == Directive::Nothing
            &&& first == second ==> two == one
            &&& first != second ==> two == (
                BridgeState::Closed { outcome: Ok(ExitReport { origin }) },
                Directive::Release { restore: restore_of(Some(held)), close_port: true },
            )
        }),
{
}

/// An origin that is on record after the first `k` of `events` is still the
/// one on record after all of them.
pub proof fn lemma_origin_kept(alternate_screen: bool, events: Seq<BridgeEvent>, k: int)
    requires
        0 <= k <= events.len(),
        origin_of(replay(alternate_screen, events.take(k))) is Some,
    ensures
        origin_of(replay(alternate_screen, events)) == origin_of(
            replay(alternate_screen, events.take(k)),
        ),
    decreases events.len() - k,
{
    if k == events.len() {
        assert(events.take(k) =~= events);
    } else {
        let prefix = events.drop_last();
        assert(prefix.take(k) =~= events.take(k));
        lemma_origin_kept(alternate_screen, prefix, k);
        lemma_recorded_origin_stays(
            alternate_screen,
            replay(alternate_screen, prefix),
            events.last(),
        );
    }
}

/// Whether a session in `state` has its pumps running or has ended with a
/// report.
pub open spec fn past_connecting(state: BridgeState) -> bool {
    match state {
        BridgeState::Interactive { .. } => true,
        BridgeState::Draining { .. } => true,
        BridgeState::Closed { outcome: Ok(_) } => true,
        _ => false,
    }
}

/// A session that was interactive ends with a report, never with an error,
/// and the report names the origin that was recorded first: if the session
/// is interactive or draining after the first `k` of `events` and closed
/// after all of them, its outcome is a report, and an origin that was on
/// record after the first `k` is the one reported.
pub proof fn lemma_interactive_session_reports(
    alternate_screen: bool,
    events: Seq<BridgeEvent>,
    k: int,
)
    requires
        0 <= k <= events.len(),
        phase_of(replay(alternate_screen, events.take(k))) == Phase::Interactive || phase_of(
            replay(alternate_screen, events.take(k)),
        ) == Phase::Draining,
        phase_of(replay(alternate_screen, events)) == Phase::Closed,
    ensures
        outcome_of(replay(alternate_screen, events)) matches Some(Ok(report)) && (origin_of(
            replay(alternate_screen, events.take(k)),
        ) matches Some(origin) ==> report.origin == origin),
{
    lemma_past_connecting_stays(alternate_screen, events, k);
    if origin_of(replay(alternate_screen, events.take(k))) is Some {
        lemma_origin_kept(alternate_screen, events, k);
    }
}

/// A session whose pumps ran after the first `k` of `events` never falls
/// back behind that.
proof fn lemma_past_connecting_stays(alternate_screen: bool, events: Seq<BridgeEvent>, k: int)
    requires
        0 <= k <= events.len(),
        past_connecting(replay(alternate_screen, events.take(k))),
    ensures
        past_connecting(replay(alternate_screen, events)),
    decreases events.len() - k,
{
    if k == events.len() {
        assert(events.take(k) =~= events);
    } else {
        let prefix = events.drop_last();
        assert(prefix.take(k) =~= events.take(k));
        lemma_past_connecting_stays(alternate_screen, prefix, k);
    }
}

/// The terminal is put back: whatever a session is told, as long as every
/// report of an entered terminal names the mode that was active before the
/// session, the terminal is in raw mode exactly while the session holds it,
/// the mode on record is the one that was active before, the alternate
/// screen is on record exactly if the session uses it, and once the session
/// gives the terminal up, and so whenever it is closed, the terminal is in
/// the mode it was in before.
pub proof fn lemma_mode_restored(
    alternate_screen: bool,
    initial: TerminalMode,
    events: Seq<BridgeEvent>,
)
    requires
        reports_mode(initial, events),
    ensures
        match held_of(replay(alternate_screen, events)) {
            Some(held) => {
                &&& held.previous == initial
                &&& held.alternate_screen == alternate_screen
                &&& terminal_mode(alternate_screen, initial, events) == TerminalMode::Raw
            },
            None => terminal_mode(alternate_screen, initial, events) == initial,
        },
        phase_of(replay(alternate_screen, events)) == Phase::Closed ==> terminal_mode(
            alternate_screen,
            initial,
            events,
        ) == initial,
    decreases events.len(),
{
    if events.len() > 0 {
        let prefix = events.drop_last();
        assert(reports_mode(initial, prefix)) by {
            assert forall|i: int| 0 <= i < prefix.len() implies (#[trigger] prefix[i]
                matches BridgeEvent::TerminalEntered(previous) ==> previous == initial) by {
                assert(prefix[i] == events[i]);
            }
        }
        lemma_mode_restored(alternate_screen, initial, prefix);
        assert(events.last() == events[events.len() - 1]);
    }
}

} // verus!
