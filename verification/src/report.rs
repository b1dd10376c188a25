//! What a session says to the user: the lines at its start and the line at
//! its end.

use vstd::prelude::*;
use vstd::string::{StrSliceExecFns, StringExecFns};
use crate::bridge::{ExitReport, SessionError};
use crate::signal::ShutdownOrigin;
use crate::terminal::TerminalError;
use crate::text::{decimal, push_decimal, texts};

verus! {

/// The letters that name the control bytes 1 to 26.
pub open spec fn control_letters() -> Seq<char> {
    "ABCDEFGHIJKLMNOPQRSTUVWXYZ"@
}

/// How the user is told which key ends the session: by its letter where
/// the exit byte is one that Ctrl and a letter send, by its number
/// otherwise.
pub open spec fn exit_hint(exit_byte: u8) -> Seq<char> {
    if 1 <= exit_byte <= 26 {
        "Press Ctrl+"@ + control_letters().subrange(exit_byte as int - 1, exit_byte as int)
            + " to exit"@
    } else {
        "Send byte "@ + decimal(exit_byte as nat) + " to exit"@
    }
}

/// The lines shown once the device is open: what the session is connected
/// to, how to leave, and an empty line.
pub open spec fn banner_lines(device: Seq<char>, baud_rate: u32, exit_byte: u8) -> Seq<Seq<char>> {
    seq![
        "Connected to "@ + device + " at "@ + decimal(baud_rate as nat) + " baud"@,
        exit_hint(exit_byte),
        ""@,
    ]
}

/// The lines shown once the device is open.
pub fn banner(device: &str, baud_rate: u32, exit_byte: u8) -> (lines: Vec<String>)
    ensures
        texts(lines@) == banner_lines(device@, baud_rate, exit_byte),
{
    let mut first = String::from_str("Connected to ");
    first.append(device);
    first.append(" at ");
    push_decimal(&mut first, baud_rate as u64);
    first.append(" baud");
    let mut hint;
    if 1 <= exit_byte && exit_byte <= 26 {
        let letters = "ABCDEFGHIJKLMNOPQRSTUVWXYZ";
        proof {
            reveal_strlit("ABCDEFGHIJKLMNOPQRSTUVWXYZ");
        }
        hint = String::from_str("Press Ctrl+");
        hint.append(letters.substring_ascii(exit_byte as usize - 1, exit_byte as usize));
        hint.append(" to exit");
    } else {
        hint = String::from_str("Send byte ");
        push_decimal(&mut hint, exit_byte as u64);
        hint.append(" to exit");
    }
    let mut lines: Vec<String> = Vec::new();
    lines.push(first);
    lines.push(hint);
    lines.push(String::from_str(""));
    assert(texts(lines@) =~= banner_lines(device@, baud_rate, exit_byte));
    lines
}

/// What the user is told about the end of a session.
pub open spec fn origin_text(origin: ShutdownOrigin) -> Seq<char> {
    match origin {
        ShutdownOrigin::UserExitKeystroke => "Session ended: exit key pressed"@,
        ShutdownOrigin::PortClosed => "Session ended: the device closed the connection"@,
        ShutdownOrigin::PortError => "Session ended: the device was disconnected"@,
        ShutdownOrigin::ExternalInterrupt => "Session ended: interrupted"@,
        ShutdownOrigin::WriterError => "Session ended: writing to the device failed"@,
    }
}

/// What the user is told about a session that could not be started.
pub open spec fn error_text(error: SessionError) -> Seq<char> {
    match error {
        SessionError::Terminal(TerminalError::NotInteractive) =>
            "Cannot start: the terminal is not interactive"@,
        SessionError::Open => "Cannot start: the device could not be opened"@,
    }
}

/// What the user is told once a session is over.
pub open spec fn outcome_text(outcome: Result<ExitReport, SessionError>) -> Seq<char> {
    match outcome {
        Ok(report) => origin_text(report.origin),
        Err(error) => error_text(error),
    }
}

/// The line that says how a session ended. It is meant to be shown after
/// the terminal has been put back.
pub fn describe(outcome: Result<ExitReport, SessionError>) -> (line: &'static str)
    ensures
        line@ == outcome_text(outcome),
{
    match outcome {
        Ok(report) => match report.origin {
            ShutdownOrigin::UserExitKeystroke => "Session ended: exit key pressed",
            ShutdownOrigin::PortClosed => "Session ended: the device closed the connection",
            ShutdownOrigin::PortError => "Session ended: the device was disconnected",
            ShutdownOrigin::ExternalInterrupt => "Session ended: interrupted",
            ShutdownOrigin::WriterError => "Session ended: writing to the device failed",
        },
        Err(error) => match error {
            SessionError::Terminal(TerminalError::NotInteractive) =>
                "Cannot start: the terminal is not interactive",
            SessionError::Open => "Cannot start: the device could not be opened",
        },
    }
}

} // verus!
