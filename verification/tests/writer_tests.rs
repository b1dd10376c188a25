use scat::signal::ShutdownOrigin;
use scat::writer::{InputEvent, WriterAction, WriterPump, DEFAULT_EXIT_BYTE};

#[test]
fn default_exit_byte_is_ctrl_c() {
    assert_eq!(DEFAULT_EXIT_BYTE, 0x03);
    assert_eq!(WriterPump::new(DEFAULT_EXIT_BYTE).exit_byte(), 3);
}

#[test]
fn exit_byte_alone_ends_the_session_and_is_not_sent() {
    let mut pump = WriterPump::new(DEFAULT_EXIT_BYTE);
    assert!(pump.proceed(false));
    assert_eq!(
        pump.on_input(InputEvent::Chunk(vec![0x03])),
        WriterAction::Raise(ShutdownOrigin::UserExitKeystroke)
    );
    assert!(!pump.is_running());
    assert!(!pump.proceed(false));
}

#[test]
fn exit_byte_at_chunk_start_drops_the_whole_chunk() {
    let mut pump = WriterPump::new(DEFAULT_EXIT_BYTE);
    assert_eq!(
        pump.on_input(InputEvent::Chunk(vec![0x03, b'l', b's', b'\r'])),
        WriterAction::Raise(ShutdownOrigin::UserExitKeystroke)
    );
    assert_eq!(pump.on_input(InputEvent::Chunk(b"ls\r".to_vec())), WriterAction::Idle);
}

#[test]
fn exit_byte_inside_a_chunk_is_sent_like_any_byte() {
    let mut pump = WriterPump::new(DEFAULT_EXIT_BYTE);
    let chunk = vec![b'a', 0x03, b'b'];
    assert_eq!(pump.on_input(InputEvent::Chunk(chunk.clone())), WriterAction::Forward(chunk));
    assert!(pump.is_running());
    let chunk = vec![b'a', 0x03];
    assert_eq!(pump.on_input(InputEvent::Chunk(chunk.clone())), WriterAction::Forward(chunk));
    assert!(pump.is_running());
    assert_eq!(pump.on_write(true), None);
    assert!(pump.proceed(false));
}

#[test]
fn another_exit_byte_can_be_chosen() {
    let mut pump = WriterPump::new(0x1d);
    assert_eq!(pump.exit_byte(), 0x1d);
    assert_eq!(
        pump.on_input(InputEvent::Chunk(vec![0x03])),
        WriterAction::Forward(vec![0x03])
    );
    assert_eq!(
        pump.on_input(InputEvent::Chunk(vec![0x1d, 0x03])),
        WriterAction::Raise(ShutdownOrigin::UserExitKeystroke)
    );
}

#[test]
fn keystrokes_are_forwarded_verbatim() {
    let mut pump = WriterPump::new(DEFAULT_EXIT_BYTE);
    let raw: Vec<u8> = vec![0x0d, 0x0a, 0x00, 0x1b, 0x5b, 0x42, 0x7f, 0xc3, 0xa9];
    assert_eq!(pump.on_input(InputEvent::Chunk(raw.clone())), WriterAction::Forward(raw));
}

#[test]
fn wait_without_input_goes_on() {
    let mut pump = WriterPump::new(DEFAULT_EXIT_BYTE);
    assert_eq!(pump.on_input(InputEvent::TimedOut), WriterAction::Idle);
    assert_eq!(pump.on_input(InputEvent::Chunk(Vec::new())), WriterAction::Idle);
    assert!(pump.is_running());
    assert!(pump.proceed(false));
}

#[test]
fn closed_input_raises_external_interrupt() {
    let mut pump = WriterPump::new(DEFAULT_EXIT_BYTE);
    assert_eq!(
        pump.on_input(InputEvent::Closed),
        WriterAction::Raise(ShutdownOrigin::ExternalInterrupt)
    );
    assert!(!pump.is_running());
}

#[test]
fn failed_write_raises_writer_error_and_stops() {
    let mut pump = WriterPump::new(DEFAULT_EXIT_BYTE);
    assert_eq!(
        pump.on_input(InputEvent::Chunk(b"AT\r".to_vec())),
        WriterAction::Forward(b"AT\r".to_vec())
    );
    assert_eq!(pump.on_write(false), Some(ShutdownOrigin::WriterError));
    assert!(!pump.is_running());
    assert!(!pump.proceed(false));
    assert_eq!(pump.on_write(false), None);
    assert_eq!(pump.on_input(InputEvent::Chunk(b"AT\r".to_vec())), WriterAction::Idle);
}

#[test]
fn set_signal_stops_the_writer_for_good() {
    let mut pump = WriterPump::new(DEFAULT_EXIT_BYTE);
    assert!(!pump.proceed(true));
    assert!(!pump.proceed(false));
    assert_eq!(pump.on_input(InputEvent::Chunk(vec![b'x'])), WriterAction::Idle);
    assert_eq!(pump.on_input(InputEvent::Chunk(vec![0x03])), WriterAction::Idle);
    assert_eq!(pump.on_input(InputEvent::Closed), WriterAction::Idle);
}
