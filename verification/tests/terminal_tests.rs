use scat::terminal::{Restore, TerminalError, TerminalMode, TerminalSession};

#[test]
fn new_session_holds_nothing() {
    let mut session = TerminalSession::new();
    assert!(!session.is_held());
    assert_eq!(session.leave(), Restore { mode: None, leave_alternate: false });
}

#[test]
fn enter_records_the_mode_before() {
    let mut session = TerminalSession::new();
    assert_eq!(session.enter(Some(TerminalMode::Cooked), true), Ok(TerminalMode::Cooked));
    assert!(session.is_held());
}

#[test]
fn enter_fails_on_a_terminal_that_cannot_be_switched() {
    let mut session = TerminalSession::new();
    assert_eq!(session.enter(None, true), Err(TerminalError::NotInteractive));
    assert!(!session.is_held());
    assert_eq!(session.leave(), Restore { mode: None, leave_alternate: false });
}

#[test]
fn leave_restores_the_recorded_mode_once() {
    for mode in [TerminalMode::Cooked, TerminalMode::Raw] {
        for alternate_screen in [false, true] {
            let mut session = TerminalSession::new();
            assert_eq!(session.enter(Some(mode), alternate_screen), Ok(mode));
            assert_eq!(
                session.leave(),
                Restore { mode: Some(mode), leave_alternate: alternate_screen }
            );
            assert!(!session.is_held());
            assert_eq!(session.leave(), Restore { mode: None, leave_alternate: false });
            assert_eq!(session.leave(), Restore { mode: None, leave_alternate: false });
        }
    }
}

#[test]
fn entering_twice_keeps_the_first_record() {
    let mut session = TerminalSession::new();
    assert_eq!(session.enter(Some(TerminalMode::Cooked), false), Ok(TerminalMode::Cooked));
    assert_eq!(session.enter(Some(TerminalMode::Raw), true), Ok(TerminalMode::Cooked));
    assert_eq!(session.enter(None, true), Ok(TerminalMode::Cooked));
    assert_eq!(
        session.leave(),
        Restore { mode: Some(TerminalMode::Cooked), leave_alternate: false }
    );
}

#[test]
fn session_can_be_entered_again_after_leaving() {
    let mut session = TerminalSession::new();
    assert_eq!(session.enter(Some(TerminalMode::Cooked), true), Ok(TerminalMode::Cooked));
    session.leave();
    assert_eq!(session.enter(Some(TerminalMode::Raw), false), Ok(TerminalMode::Raw));
    assert_eq!(session.leave(), Restore { mode: Some(TerminalMode::Raw), leave_alternate: false });
}
