//! Scoped acquisition of the raw terminal mode.
//!
//! The session keeps on record which mode the terminal was in before it was
//! switched, and hands that record out exactly once when the terminal is to
//! be put back.

use vstd::prelude::*;

verus! {

/// The line discipline of the controlling terminal.
#[derive(Clone, Copy, Debug, PartialEq, Eq, Structural)]
pub enum TerminalMode {
    /// Line-buffered input with local echo.
    Cooked,
    /// Input byte by byte, no echo, no control characters interpreted.
    Raw,
}

/// The terminal could not be switched.
#[derive(Clone, Copy, Debug, PartialEq, Eq, Structural)]
pub enum TerminalError {
    /// The device does not answer mode queries or changes: it is no
    /// interactive terminal.
    NotInteractive,
}

/// What a session has on record while it holds the terminal.
#[derive(Clone, Copy, Debug, PartialEq, Eq, Structural)]
pub struct Acquisition {
    /// The mode that was active before the terminal was switched.
    pub previous: TerminalMode,
    /// Whether the screen was switched to the alternate buffer as well.
    pub alternate_screen: bool,
}

/// What has to be done to the terminal to put it back.
#[derive(Clone, Copy, Debug, PartialEq, Eq, Structural)]
pub struct Restore {
    /// The mode to switch back to, `None` where nothing is to be switched.
    pub mode: Option<TerminalMode>,
    /// Whether the alternate screen buffer has to be left.
    pub leave_alternate: bool,
}

/// The record after the terminal answered an attempt to switch it to raw
/// mode. `answer` is the mode it was in before, or `None` where it could not
/// be switched. A record that is already held is never overwritten.
pub open spec fn entered(
    before: Option<Acquisition>,
    answer: Option<TerminalMode>,
    alternate_screen: bool,
) -> Option<Acquisition> {
    match before {
        Some(_) => before,
        None => match answer {
            Some(previous) => Some(Acquisition { previous, alternate_screen }),
            None => None,
        },
    }
}

/// What putting the terminal back takes, given the record held.
pub open spec fn restore_of(held: Option<Acquisition>) -> Restore {
    match held {
        Some(acquisition) => Restore {
            mode: Some(acquisition.previous),
            leave_alternate: acquisition.alternate_screen,
        },
        None => Restore { mode: None, leave_alternate: false },
    }
}

/// The mode of a terminal that was in `current` once `restore` is carried
/// out.
pub open spec fn mode_after_restore(current: TerminalMode, restore: Restore) -> TerminalMode {
    match restore.mode {
        Some(mode) => mode,
        None => current,
    }
}

/// Owner of the record of the terminal's mode for one session.
#[derive(Clone, Copy, Debug, PartialEq, Eq, Structural)]
pub struct TerminalSession {
    held: Option<Acquisition>,
}

impl TerminalSession {
    /// The record held, `None` while the terminal is not held.
    pub closed spec fn view(&self) -> Option<Acquisition> {
        self.held
    }

    /// A session that does not hold the terminal.
    pub fn new() -> (session: TerminalSession)
        ensures
            session@ is None,
    {
        TerminalSession { held: None }
    }

    /// Whether the terminal is held.
    pub fn is_held(&self) -> (held: bool)
        ensures
            held == (self@ is Some),
    {
        self.held.is_some()
    }

    /// Puts on record what the terminal answered to the switch to raw mode
    /// and returns the mode to restore later. Where the terminal could not
    /// be switched nothing is recorded and the error is returned. A session
    /// that already holds the terminal keeps its first record.
    pub fn enter(&mut self, answer: Option<TerminalMode>, alternate_screen: bool) -> (recorded:
        Result<TerminalMode, TerminalError>)
        ensures
            final(self)@ == entered(old(self)@, answer, alternate_screen),
            match final(self)@ {
                Some(acquisition) => recorded == Ok::<TerminalMode, TerminalError>(
                    acquisition.previous,
                ),
                None => recorded == Err::<TerminalMode, TerminalError>(
                    TerminalError::NotInteractive,
                ),
            },
    {
        match self.held {
            Some(acquisition) => Ok(acquisition.previous),
            None => match answer {
                Some(previous) => {
                    self.held = Some(Acquisition { previous, alternate_screen });
                    Ok(previous)
                },
                None => Err(TerminalError::NotInteractive),
            },
        }
    }

    /// Gives the record up and says what putting the terminal back takes.
    /// A second call finds nothing on record and asks for nothing.
    pub fn leave(&mut self) -> (restore: Restore)
        ensures
            final(self)@ is None,
            restore == restore_of(old(self)@),
    {
        let restore = match self.held {
            Some(acquisition) => Restore {
                mode: Some(acquisition.previous),
                leave_alternate: acquisition.alternate_screen,
            },
            None => Restore { mode: None, leave_alternate: false },
        };
        self.held = None;
        restore
    }
}

/// Entering and leaving puts the terminal back into the mode it was in, and
/// leaving a second time changes nothing: for a terminal in mode `before`
/// that is switched to raw mode and recorded by a fresh session, the first
/// restore yields `before`, leaves the alternate screen exactly if it was
/// entered, and the second restore asks for nothing.
pub proof fn lemma_enter_leave_restores(before: TerminalMode, alternate_screen: bool)
    ensures
        ({
            let held = entered(None, Some(before), alternate_screen);
            let first = restore_of(held);
            let second = restore_of(None);
            &&& mode_after_restore(TerminalMode::Raw, first) == before
            &&& first.leave_alternate == alternate_screen
            &&& second.mode is None
            &&& !second.leave_alternate
            &&& mode_after_restore(before, second) == before
        }),
{
}

} // verus!
