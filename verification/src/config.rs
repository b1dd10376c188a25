//! The settings of a serial line and the rules that accept them.

use vstd::prelude::*;
use vstd::string::{StrSliceExecFns, StringExecFns};
use crate::text::{decimal, push_decimal};

verus! {

/// The time that one read from the device waits for data, in milliseconds.
/// It is the longest that a pump takes to see the shutdown signal.
pub const READ_TIMEOUT_MS: u64 = 100;

/// The number of bits in a character on the line.
#[derive(Clone, Copy, Debug, PartialEq, Eq, Structural)]
pub enum DataBits {
    Five,
    Six,
    Seven,
    Eight,
}

/// The number of bits that end a character on the line.
#[derive(Clone, Copy, Debug, PartialEq, Eq, Structural)]
pub enum StopBits {
    One,
    Two,
}

/// The parity check on the line.
#[derive(Clone, Copy, Debug, PartialEq, Eq, Structural)]
pub enum Parity {
    /// No parity bit.
    NoParity,
    /// The parity bit makes the number of ones odd.
    Odd,
    /// The parity bit makes the number of ones even.
    Even,
}

/// Why a setting was turned down.
#[derive(Clone, Copy, Debug, PartialEq, Eq, Structural)]
pub enum ConfigError {
    /// The number of data bits is not 5, 6, 7 or 8.
    InvalidDataBits(u8),
    /// The number of stop bits is not 1 or 2.
    InvalidStopBits(u8),
    /// The baud rate is zero.
    InvalidBaudRate,
    /// The parity is none of `none`, `odd` and `even`.
    InvalidParity,
}

/// The data bits that a number stands for.
pub open spec fn data_bits_of(bits: u8) -> Result<DataBits, ConfigError> {
    if bits == 5 {
        Ok(DataBits::Five)
    } else if bits == 6 {
        Ok(DataBits::Six)
    } else if bits == 7 {
        Ok(DataBits::Seven)
    } else if bits == 8 {
        Ok(DataBits::Eight)
    } else {
        Err(ConfigError::InvalidDataBits(bits))
    }
}

/// The stop bits that a number stands for.
pub open spec fn stop_bits_of(bits: u8) -> Result<StopBits, ConfigError> {
    if bits == 1 {
        Ok(StopBits::One)
    } else if bits == 2 {
        Ok(StopBits::Two)
    } else {
        Err(ConfigError::InvalidStopBits(bits))
    }
}

/// Whether `text` is `word` up to the case of its letters, where `lower`
/// and `upper` spell the word in lower and in upper case.
pub open spec fn spells(text: Seq<char>, lower: Seq<char>, upper: Seq<char>) -> bool {
    &&& text.len() == lower.len()
    &&& forall|i: int| 0 <= i < text.len() ==> text[i] == lower[i] || text[i] == upper[i]
}

/// The parity that a word names, in any mix of upper and lower case.
pub open spec fn parity_of(text: Seq<char>) -> Result<Parity, ConfigError> {
    if spells(text, seq!['n', 'o', 'n', 'e'], seq!['N', 'O', 'N', 'E']) {
        Ok(Parity::NoParity)
    } else if spells(text, seq!['o', 'd', 'd'], seq!['O', 'D', 'D']) {
        Ok(Parity::Odd)
    } else if spells(text, seq!['e', 'v', 'e', 'n'], seq!['E', 'V', 'E', 'N']) {
        Ok(Parity::Even)
    } else {
        Err(ConfigError::InvalidParity)
    }
}

/// Reads a number of data bits: 5, 6, 7 and 8 are accepted.
pub fn parse_data_bits(bits: u8) -> (parsed: Result<DataBits, ConfigError>)
    ensures
        parsed == data_bits_of(bits),
{
    match bits {
        5 => Ok(DataBits::Five),
        6 => Ok(DataBits::Six),
        7 => Ok(DataBits::Seven),
        8 => Ok(DataBits::Eight),
        _ => Err(ConfigError::InvalidDataBits(bits)),
    }
}

/// Reads a number of stop bits: 1 and 2 are accepted.
pub fn parse_stop_bits(bits: u8) -> (parsed: Result<StopBits, ConfigError>)
    ensures
        parsed == stop_bits_of(bits),
{
    match bits {
        1 => Ok(StopBits::One),
        2 => Ok(StopBits::Two),
        _ => Err(ConfigError::InvalidStopBits(bits)),
    }
}

/// Whether `text` is the word that `lower` and `upper` spell.
fn is_word(text: &str, lower: &str, upper: &str) -> (same: bool)
    requires
        lower@.len() == upper@.len(),
    ensures
        same == spells(text@, lower@, upper@),
{
    let len = text.unicode_len();
    if len != lower.unicode_len() {
        return false;
    }
    let mut i: usize = 0;
    while i < len
        invariant
            i <= len,
            len == text@.len(),
            len == lower@.len(),
            len == upper@.len(),
            forall|j: int| 0 <= j < i ==> text@[j] == lower@[j] || text@[j] == upper@[j],
        decreases len - i,
    {
        let c = text.get_char(i);
        if c != lower.get_char(i) && c != upper.get_char(i) {
            return false;
        }
        i = i + 1;
    }
    true
}

/// Reads the name of a parity: `none`, `odd` and `even` are accepted, in
/// any mix of upper and lower case.
pub fn parse_parity(name: &str) -> (parsed: Result<Parity, ConfigError>)
    ensures
        parsed == parity_of(name@),
{
    proof {
        reveal_strlit("none");
        reveal_strlit("NONE");
        reveal_strlit("odd");
        reveal_strlit("ODD");
        reveal_strlit("even");
        reveal_strlit("EVEN");
        assert("none"@ =~= seq!['n', 'o', 'n', 'e']);
        assert("NONE"@ =~= seq!['N', 'O', 'N', 'E']);
        assert("odd"@ =~= seq!['o', 'd', 'd']);
        assert("ODD"@ =~= seq!['O', 'D', 'D']);
        assert("even"@ =~= seq!['e', 'v', 'e', 'n']);
        assert("EVEN"@ =~= seq!['E', 'V', 'E', 'N']);
    }
    if is_word(name, "none", "NONE") {
        Ok(Parity::NoParity)
    } else if is_word(name, "odd", "ODD") {
        Ok(Parity::Odd)
    } else if is_word(name, "even", "EVEN") {
        Ok(Parity::Even)
    } else {
        Err(ConfigError::InvalidParity)
    }
}

impl DataBits {
    /// The number of data bits.
    pub open spec fn count(self) -> u8 {
        match self {
            DataBits::Five => 5,
            DataBits::Six => 6,
            DataBits::Seven => 7,
            DataBits::Eight => 8,
        }
    }

    /// The number of data bits.
    pub fn bits(self) -> (bits: u8)
        ensures
            bits == self.count(),
            data_bits_of(bits) == Ok::<DataBits, ConfigError>(self),
    {
        match self {
            DataBits::Five => 5,
            DataBits::Six => 6,
            DataBits::Seven => 7,
            DataBits::Eight => 8,
        }
    }
}

impl StopBits {
    /// The number of stop bits.
    pub open spec fn count(self) -> u8 {
        match self {
            StopBits::One => 1,
            StopBits::Two => 2,
        }
    }

    /// The number of stop bits.
    pub fn bits(self) -> (bits: u8)
        ensures
            bits == self.count(),
            stop_bits_of(bits) == Ok::<StopBits, ConfigError>(self),
    {
        match self {
            StopBits::One => 1,
            StopBits::Two => 2,
        }
    }
}

/// What contracts see of a port configuration.
pub struct PortSettings {
    /// The path or name of the device.
    pub device: Seq<char>,
    /// The baud rate, which is not zero.
    pub baud_rate: u32,
    pub data_bits: DataBits,
    pub stop_bits: StopBits,
    pub parity: Parity,
}

/// The settings that the given values stand for: the data bits are looked
/// at first, then the stop bits, then the baud rate.
pub open spec fn settings_of(
    device: Seq<char>,
    baud_rate: u32,
    data_bits: u8,
    stop_bits: u8,
    parity: Parity,
) -> Result<PortSettings, ConfigError> {
    match data_bits_of(data_bits) {
        Err(error) => Err(error),
        Ok(data) => match stop_bits_of(stop_bits) {
            Err(error) => Err(error),
            Ok(stop) => if baud_rate == 0 {
                Err(ConfigError::InvalidBaudRate)
            } else {
                Ok(PortSettings { device, baud_rate, data_bits: data, stop_bits: stop, parity })
            },
        },
    }
}

/// The settings of a serial line, each of them accepted.
#[derive(Debug, PartialEq, Eq)]
pub struct PortConfig {
    device: String,
    baud_rate: u32,
    data_bits: DataBits,
    stop_bits: StopBits,
    parity: Parity,
}

impl PortConfig {
    /// What contracts see of the configuration.
    pub closed spec fn view(&self) -> PortSettings {
        PortSettings {
            device: self.device@,
            baud_rate: self.baud_rate,
            data_bits: self.data_bits,
            stop_bits: self.stop_bits,
            parity: self.parity,
        }
    }

    /// Accepts the settings of a line, or says which of them is wrong.
    pub fn new(device: &str, baud_rate: u32, data_bits: u8, stop_bits: u8, parity: Parity) -> (config:
        Result<PortConfig, ConfigError>)
        ensures
            match settings_of(device@, baud_rate, data_bits, stop_bits, parity) {
                Ok(settings) => config matches Ok(accepted) && accepted@ == settings,
                Err(error) => config matches Err(refused) && refused == error,
            },
    {
        let data = match parse_data_bits(data_bits) {
            Ok(data) => data,
            Err(error) => {
                return Err(error);
            },
        };
        let stop = match parse_stop_bits(stop_bits) {
            Ok(stop) => stop,
            Err(error) => {
                return Err(error);
            },
        };
        if baud_rate == 0 {
            return Err(ConfigError::InvalidBaudRate);
        }
        Ok(
            PortConfig {
                device: String::from_str(device),
                baud_rate,
                data_bits: data,
                stop_bits: stop,
                parity,
            },
        )
    }

    /// The path or name of the device.
    pub fn device(&self) -> (device: &str)
        ensures
            device@ == self@.device,
    {
        self.device.as_str()
    }

    /// The baud rate.
    pub fn baud_rate(&self) -> (baud_rate: u32)
        ensures
            baud_rate == self@.baud_rate,
    {
        self.baud_rate
    }

    /// The number of data bits.
    pub fn data_bits(&self) -> (data_bits: DataBits)
        ensures
            data_bits == self@.data_bits,
    {
        self.data_bits
    }

    /// The number of stop bits.
    pub fn stop_bits(&self) -> (stop_bits: StopBits)
        ensures
            stop_bits == self@.stop_bits,
    {
        self.stop_bits
    }

    /// The parity.
    pub fn parity(&self) -> (parity: Parity)
        ensures
            parity == self@.parity,
    {
        self.parity
    }
}

/// What an error says to the user.
pub open spec fn message_of(error: ConfigError) -> Seq<char> {
    match error {
        ConfigError::InvalidDataBits(bits) => "Invalid data bits: "@ + decimal(bits as nat)
            + ". Must be 5, 6, 7, or 8"@,
        ConfigError::InvalidStopBits(bits) => "Invalid stop bits: "@ + decimal(bits as nat)
            + ". Must be 1 or 2"@,
        ConfigError::InvalidBaudRate => "Invalid baud rate: 0. Must be positive"@,
        ConfigError::InvalidParity => "Invalid parity. Must be none, odd, or even"@,
    }
}

impl ConfigError {
    /// What the error says to the user.
    pub fn message(&self) -> (text: String)
        ensures
            text@ == message_of(*self),
    {
        match self {
            ConfigError::InvalidDataBits(bits) => {
                let mut text = String::from_str("Invalid data bits: ");
                push_decimal(&mut text, *bits as u64);
                text.append(". Must be 5, 6, 7, or 8");
                text
            },
            ConfigError::InvalidStopBits(bits) => {
                let mut text = String::from_str("Invalid stop bits: ");
                push_decimal(&mut text, *bits as u64);
                text.append(". Must be 1 or 2");
                text
            },
            ConfigError::InvalidBaudRate => String::from_str(
                "Invalid baud rate: 0. Must be positive",
            ),
            ConfigError::InvalidParity => String::from_str(
                "Invalid parity. Must be none, odd, or even",
            ),
        }
    }
}

} // verus!
