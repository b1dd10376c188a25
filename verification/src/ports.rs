//! The list of serial ports as it is shown to the user.

use vstd::prelude::*;
use vstd::string::StringExecFns;
use crate::text::{hex4, push_hex4, texts};

verus! {

/// How a serial port is attached to the machine.
#[derive(Debug, PartialEq, Eq)]
pub enum PortKind {
    /// A port on a USB device, with what the device says of itself.
    Usb { vid: u16, pid: u16, manufacturer: Option<String>, product: Option<String> },
    /// A port on a PCI card.
    Pci,
    /// A port over Bluetooth.
    Bluetooth,
    /// A port of which no more is known.
    Unknown,
}

/// One serial port of the machine.
#[derive(Debug, PartialEq, Eq)]
pub struct PortEntry {
    /// The name under which the port is opened.
    pub name: String,
    /// How the port is attached.
    pub kind: PortKind,
}

/// A line of its own for something that a USB device may say of itself, no
/// line where it says nothing.
pub open spec fn detail_line(label: Seq<char>, detail: Option<String>) -> Seq<Seq<char>> {
    match detail {
        Some(text) => seq![label + text@],
        None => Seq::empty(),
    }
}

/// The lines that show one port.
pub open spec fn entry_lines(entry: PortEntry) -> Seq<Seq<char>> {
    match entry.kind {
        PortKind::Usb { vid, pid, manufacturer, product } => seq![
            "  "@ + entry.name@ + " - USB (VID: "@ + hex4(vid) + ", PID: "@ + hex4(pid) + ")"@,
        ] + detail_line("    Manufacturer: "@, manufacturer) + detail_line(
            "    Product: "@,
            product,
        ),
        PortKind::Pci => seq!["  "@ + entry.name@ + " - PCI"@],
        PortKind::Bluetooth => seq!["  "@ + entry.name@ + " - Bluetooth"@],
        PortKind::Unknown => seq!["  "@ + entry.name@],
    }
}

/// The lines that show each of `ports`, in their order.
pub open spec fn entries_lines(ports: Seq<PortEntry>) -> Seq<Seq<char>>
    decreases ports.len(),
{
    if ports.len() == 0 {
        Seq::empty()
    } else {
        entries_lines(ports.drop_last()) + entry_lines(ports.last())
    }
}

/// The lines that show the ports of the machine: a heading and the ports,
/// or one line that says that there are none.
pub open spec fn listing_lines(ports: Seq<PortEntry>) -> Seq<Seq<char>> {
    if ports.len() == 0 {
        seq!["No serial ports found"@]
    } else {
        seq!["Available serial ports:"@] + entries_lines(ports)
    }
}

/// Appends the lines that show `entry` to `lines`.
fn push_entry(lines: &mut Vec<String>, entry: &PortEntry)
    ensures
        texts(final(lines)@) == texts(old(lines)@) + entry_lines(*entry),
{
    let mut line = String::from_str("  ");
    line.append(entry.name.as_str());
    match &entry.kind {
        PortKind::Usb { vid, pid, manufacturer, product } => {
            line.append(" - USB (VID: ");
            push_hex4(&mut line, *vid);
            line.append(", PID: ");
            push_hex4(&mut line, *pid);
            line.append(")");
            assert(line@ =~= "  "@ + entry.name@ + " - USB (VID: "@ + hex4(*vid) + ", PID: "@
                + hex4(*pid) + ")"@);
            lines.push(line);
            let ghost shown = lines@;
            match manufacturer {
                Some(text) => {
                    let mut detail = String::from_str("    Manufacturer: ");
                    detail.append(text.as_str());
                    lines.push(detail);
                },
                None => {},
            }
            assert(texts(lines@) =~= texts(shown) + detail_line(
                "    Manufacturer: "@,
                *manufacturer,
            ));
            let ghost shown = lines@;
            match product {
                Some(text) => {
                    let mut detail = String::from_str("    Product: ");
                    detail.append(text.as_str());
                    lines.push(detail);
                },
                None => {},
            }
            assert(texts(lines@) =~= texts(shown) + detail_line("    Product: "@, *product));
        },
        PortKind::Pci => {
            line.append(" - PCI");
            lines.push(line);
        },
        PortKind::Bluetooth => {
            line.append(" - Bluetooth");
            lines.push(line);
        },
        PortKind::Unknown => {
            lines.push(line);
        },
    }
    assert(texts(lines@) =~= texts(old(lines)@) + entry_lines(*entry));
}

/// The lines that show the ports of the machine.
pub fn listing(ports: &Vec<PortEntry>) -> (lines: Vec<String>)
    ensures
        texts(lines@) == listing_lines(ports@),
{
    let mut lines: Vec<String> = Vec::new();
    if ports.len() == 0 {
        lines.push(String::from_str("No serial ports found"));
        assert(texts(lines@) =~= listing_lines(ports@));
        return lines;
    }
    lines.push(String::from_str("Available serial ports:"));
    assert(texts(lines@) =~= seq!["Available serial ports:"@]);
    let mut i: usize = 0;
    while i < ports.len()
        invariant
            i <= ports.len(),
            texts(lines@) == seq!["Available serial ports:"@] + entries_lines(
                ports@.take(i as int),
            ),
        decreases ports.len() - i,
    {
        push_entry(&mut lines, &ports[i]);
        proof {
            let next = ports@.take(i + 1);
            assert(next.drop_last() =~= ports@.take(i as int));
            assert(next.last() == ports@[i as int]);
            assert(texts(lines@) =~= seq!["Available serial ports:"@] + entries_lines(next));
        }
        i = i + 1;
    }
    assert(ports@.take(i as int) =~= ports@);
    lines
}

} // verus!
