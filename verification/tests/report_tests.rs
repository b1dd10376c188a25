use scat::bridge::{ExitReport, SessionError};
use scat::report::{banner, describe};
use scat::signal::ShutdownOrigin;
use scat::terminal::TerminalError;
use scat::text::{push_decimal, push_hex4};

fn decimal_string(n: u64) -> String {
    let mut text = String::new();
    push_decimal(&mut text, n);
    text
}

#[test]
fn banner_names_device_and_baud_rate() {
    assert_eq!(
        banner("/dev/ttyUSB0", 115200, 0x03),
        vec![
            "Connected to /dev/ttyUSB0 at 115200 baud".to_string(),
            "Press Ctrl+C to exit".to_string(),
            "".to_string(),
        ]
    );
}

#[test]
fn banner_names_the_exit_key_that_was_chosen() {
    assert_eq!(banner("COM3", 9600, 0x01)[1], "Press Ctrl+A to exit");
    assert_eq!(banner("COM3", 9600, 0x11)[1], "Press Ctrl+Q to exit");
    assert_eq!(banner("COM3", 9600, 0x1a)[1], "Press Ctrl+Z to exit");
    assert_eq!(banner("COM3", 9600, 0x1d)[1], "Send byte 29 to exit");
    assert_eq!(banner("COM3", 9600, 0x00)[1], "Send byte 0 to exit");
    assert_eq!(banner("COM3", 9600, 0xff)[1], "Send byte 255 to exit");
    assert_eq!(banner("COM3", 9600, 0x00)[0], "Connected to COM3 at 9600 baud");
    assert_eq!(banner("", u32::MAX, 0x03)[0], "Connected to  at 4294967295 baud");
}

#[test]
fn every_origin_has_its_own_line() {
    let lines = [
        (ShutdownOrigin::UserExitKeystroke, "Session ended: exit key pressed"),
        (ShutdownOrigin::PortClosed, "Session ended: the device closed the connection"),
        (ShutdownOrigin::PortError, "Session ended: the device was disconnected"),
        (ShutdownOrigin::ExternalInterrupt, "Session ended: interrupted"),
        (ShutdownOrigin::WriterError, "Session ended: writing to the device failed"),
    ];
    for (origin, line) in lines {
        assert_eq!(describe(Ok(ExitReport { origin })), line);
    }
}

#[test]
fn every_error_has_its_own_line() {
    assert_eq!(
        describe(Err(SessionError::Terminal(TerminalError::NotInteractive))),
        "Cannot start: the terminal is not interactive"
    );
    assert_eq!(describe(Err(SessionError::Open)), "Cannot start: the device could not be opened");
}

#[test]
fn decimal_text_has_no_leading_zeros() {
    assert_eq!(decimal_string(0), "0");
    assert_eq!(decimal_string(7), "7");
    assert_eq!(decimal_string(10), "10");
    assert_eq!(decimal_string(105), "105");
    assert_eq!(decimal_string(115200), "115200");
    assert_eq!(decimal_string(u64::MAX), "18446744073709551615");
}

#[test]
fn decimal_text_agrees_with_the_standard_library() {
    for n in 0..2000u64 {
        assert_eq!(decimal_string(n), n.to_string());
    }
}

#[test]
fn digits_are_appended_to_what_is_there() {
    let mut text = String::from("baud=");
    push_decimal(&mut text, 9600);
    assert_eq!(text, "baud=9600");
    push_hex4(&mut text, 0x00af);
    assert_eq!(text, "baud=960000AF");
}

#[test]
fn hex_text_agrees_with_the_standard_library() {
    for value in [0u16, 1, 9, 10, 15, 16, 255, 256, 4095, 4096, 0x1a86, 0x7523, 0xabcd, u16::MAX] {
        let mut text = String::new();
        push_hex4(&mut text, value);
        assert_eq!(text, format!("{:04X}", value));
    }
}
