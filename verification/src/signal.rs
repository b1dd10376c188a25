//! The set-once shutdown signal of a session.

use vstd::prelude::*;

verus! {

/// Why a session ended.
#[derive(Clone, Copy, Debug, PartialEq, Eq, Structural)]
pub enum ShutdownOrigin {
    /// The user typed the exit byte.
    UserExitKeystroke,
    /// The device reported the end of its stream.
    PortClosed,
    /// Reading from the device failed.
    PortError,
    /// The session was ended from outside.
    ExternalInterrupt,
    /// Writing to the device failed.
    WriterError,
}

/// A signal that fires once and keeps the origin of its first firing.
#[derive(Clone, Copy, Debug, PartialEq, Eq, Structural)]
pub struct ShutdownSignal {
    origin: Option<ShutdownOrigin>,
}

impl ShutdownSignal {
    /// The origin that the signal holds, `None` while it has not fired.
    pub closed spec fn view(&self) -> Option<ShutdownOrigin> {
        self.origin
    }

    /// A signal that has not fired.
    pub fn new() -> (signal: ShutdownSignal)
        ensures
            signal@ is None,
    {
        ShutdownSignal { origin: None }
    }

    /// Fires the signal with `origin` unless it has fired before, and says
    /// whether this call was the one that fired it.
    pub fn fire(&mut self, origin: ShutdownOrigin) -> (won: bool)
        ensures
            won == (old(self)@ is None),
            final(self)@ == fired(old(self)@, origin),
    {
        match self.origin {
            None => {
                self.origin = Some(origin);
                true
            },
            Some(_) => false,
        }
    }

    /// Whether the signal has fired.
    pub fn is_set(&self) -> (set: bool)
        ensures
            set == (self@ is Some),
    {
        self.origin.is_some()
    }

    /// The recorded origin, `None` while the signal has not fired.
    pub fn origin(&self) -> (origin: Option<ShutdownOrigin>)
        ensures
            origin == self@,
    {
        self.origin
    }
}

/// What a signal holds after an attempt to fire it with `origin`.
pub open spec fn fired(before: Option<ShutdownOrigin>, origin: ShutdownOrigin) -> Option<
    ShutdownOrigin,
> {
    match before {
        None => Some(origin),
        Some(first) => Some(first),
    }
}

/// What a signal holds after attempts to fire it with each of `origins` in
/// order.
pub open spec fn fired_all(before: Option<ShutdownOrigin>, origins: Seq<ShutdownOrigin>) -> Option<
    ShutdownOrigin,
>
    decreases origins.len(),
{
    if origins.len() == 0 {
        before
    } else {
        fired(fired_all(before, origins.drop_last()), origins.last())
    }
}

/// A signal that has fired keeps its origin whatever it is fired with
/// afterwards.
pub proof fn lemma_fired_signal_keeps_origin(first: ShutdownOrigin, origins: Seq<ShutdownOrigin>)
    ensures
        fired_all(Some(first), origins) == Some(first),
    decreases origins.len(),
{
    if origins.len() > 0 {
        lemma_fired_signal_keeps_origin(first, origins.drop_last());
    }
}

/// The first origin wins: however many times a fresh signal is fired, and
/// with whatever origins, it holds exactly one origin afterwards, the one
/// it was fired with first.
pub proof fn lemma_first_origin_wins(origins: Seq<ShutdownOrigin>)
    requires
        origins.len() > 0,
    ensures
        fired_all(None, origins) == Some(origins[0]),
    decreases origins.len(),
{
    if origins.len() > 1 {
        lemma_first_origin_wins(origins.drop_last());
        assert(origins.drop_last()[0] == origins[0]);
    } else {
        assert(fired_all(None, origins.drop_last()) == None::<ShutdownOrigin>);
        assert(origins.last() == origins[0]);
    }
}

} // verus!
