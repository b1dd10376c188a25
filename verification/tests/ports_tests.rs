use scat::ports::{listing, PortEntry, PortKind};

fn entry(name: &str, kind: PortKind) -> PortEntry {
    PortEntry { name: name.to_string(), kind }
}

#[test]
fn no_ports_gives_one_line() {
    assert_eq!(listing(&Vec::new()), vec!["No serial ports found".to_string()]);
}

#[test]
fn usb_port_shows_ids_in_four_hex_digits() {
    let ports = vec![entry(
        "/dev/ttyUSB0",
        PortKind::Usb { vid: 0x1a86, pid: 0x7523, manufacturer: None, product: None },
    )];
    assert_eq!(
        listing(&ports),
        vec![
            "Available serial ports:".to_string(),
            "  /dev/ttyUSB0 - USB (VID: 1A86, PID: 7523)".to_string(),
        ]
    );
}

#[test]
fn usb_ids_keep_their_leading_zeros() {
    let ports = vec![entry(
        "COM3",
        PortKind::Usb { vid: 0x0000, pid: 0x00ff, manufacturer: None, product: None },
    )];
    assert_eq!(listing(&ports)[1], "  COM3 - USB (VID: 0000, PID: 00FF)");
    let ports = vec![entry(
        "COM4",
        PortKind::Usb { vid: 0xffff, pid: 0x0abc, manufacturer: None, product: None },
    )];
    assert_eq!(listing(&ports)[1], "  COM4 - USB (VID: FFFF, PID: 0ABC)");
}

#[test]
fn usb_port_shows_what_the_device_says_of_itself() {
    let ports = vec![entry(
        "/dev/ttyACM0",
        PortKind::Usb {
            vid: 0x2341,
            pid: 0x0043,
            manufacturer: Some("Arduino (www.arduino.cc)".to_string()),
            product: Some("Arduino Uno".to_string()),
        },
    )];
    assert_eq!(
        listing(&ports),
        vec![
            "Available serial ports:".to_string(),
            "  /dev/ttyACM0 - USB (VID: 2341, PID: 0043)".to_string(),
            "    Manufacturer: Arduino (www.arduino.cc)".to_string(),
            "    Product: Arduino Uno".to_string(),
        ]
    );
}

#[test]
fn usb_port_with_product_only_has_no_manufacturer_line() {
    let ports = vec![entry(
        "/dev/ttyUSB1",
        PortKind::Usb {
            vid: 0x0403,
            pid: 0x6001,
            manufacturer: None,
            product: Some("FT232R".to_string()),
        },
    )];
    assert_eq!(
        listing(&ports),
        vec![
            "Available serial ports:".to_string(),
            "  /dev/ttyUSB1 - USB (VID: 0403, PID: 6001)".to_string(),
            "    Product: FT232R".to_string(),
        ]
    );
}

#[test]
fn ports_of_every_kind_are_listed_in_order() {
    let ports = vec![
        entry("/dev/ttyS0", PortKind::Pci),
        entry("/dev/rfcomm0", PortKind::Bluetooth),
        entry("/dev/ttyAMA0", PortKind::Unknown),
        entry(
            "/dev/ttyUSB0",
            PortKind::Usb {
                vid: 0x10c4,
                pid: 0xea60,
                manufacturer: Some("Silicon Labs".to_string()),
                product: None,
            },
        ),
    ];
    assert_eq!(
        listing(&ports),
        vec![
            "Available serial ports:".to_string(),
            "  /dev/ttyS0 - PCI".to_string(),
            "  /dev/rfcomm0 - Bluetooth".to_string(),
            "  /dev/ttyAMA0".to_string(),
            "  /dev/ttyUSB0 - USB (VID: 10C4, PID: EA60)".to_string(),
            "    Manufacturer: Silicon Labs".to_string(),
        ]
    );
}
