//! The serial and network configuration that a bridge run is given.
//!
//! The only non-trivial rule here is the data-bits fallback: a character
//! width outside {5, 6, 7, 8} is not fatal; it is replaced by 8 and the
//! caller is told to warn.

use vstd::prelude::*;

verus! {

/// Default baud rate when none is given.
pub const DEFAULT_BAUD_RATE: u32 = 115200;

/// Default data bits when none is given.
pub const DEFAULT_DATA_BITS: u8 = 8;

/// Default TCP listen port when none is given.
pub const DEFAULT_TCP_PORT: u16 = 11223;

/// Number of data bits per serial character.
#[derive(Clone, Copy, Debug, PartialEq, Eq, Structural)]
pub enum DataBits {
    Five,
    Six,
    Seven,
    Eight,
}

/// Parity checking mode of the serial line.
#[derive(Clone, Copy, Debug, PartialEq, Eq, Structural)]
pub enum Parity {
    Even,
    Odd,
    Disabled,
}

/// Number of stop bits per serial character.
#[derive(Clone, Copy, Debug, PartialEq, Eq, Structural)]
pub enum StopBits {
    One,
    Two,
}

impl Default for DataBits {
    /// The default character width is eight data bits.
    fn default() -> (r: Self)
        ensures
            r == DataBits::Eight,
    {
        DataBits::Eight
    }
}

impl Default for Parity {
    /// Parity checking is off by default.
    fn default() -> (r: Self)
        ensures
            r == Parity::Disabled,
    {
        Parity::Disabled
    }
}

impl Default for StopBits {
    /// One stop bit by default.
    fn default() -> (r: Self)
        ensures
            r == StopBits::One,
    {
        StopBits::One
    }
}

/// Whether a raw data-bits count is one the serial line supports.
pub open spec fn data_bits_supported(raw: u8) -> bool {
    raw == 5 || raw == 6 || raw == 7 || raw == 8
}

/// The character width a raw count resolves to: itself when supported,
/// the default of eight otherwise.
pub open spec fn resolved_data_bits(raw: u8) -> DataBits {
    if raw == 5 {
        DataBits::Five
    } else if raw == 6 {
        DataBits::Six
    } else if raw == 7 {
        DataBits::Seven
    } else {
        DataBits::Eight
    }
}

/// The number of data bits a `DataBits` value stands for.
pub open spec fn data_bits_count(b: DataBits) -> u8 {
    match b {
        DataBits::Five => 5,
        DataBits::Six => 6,
        DataBits::Seven => 7,
        DataBits::Eight => 8,
    }
}

/// Resolves a raw data-bits count. A supported count maps to its own
/// `DataBits` value; any other count falls back to eight. The second
/// component is true exactly when the fallback was taken, so that the
/// caller can emit a warning.
pub fn resolve_data_bits(raw: u8) -> (r: (DataBits, bool))
    ensures
        r.0 == resolved_data_bits(raw),
        r.1 == !data_bits_supported(raw),
        data_bits_count(r.0) == if data_bits_supported(raw) {
            raw
        } else {
            DEFAULT_DATA_BITS
        },
{
    match raw {
        5 => (DataBits::Five, false),
        6 => (DataBits::Six, false),
        7 => (DataBits::Seven, false),
        8 => (DataBits::Eight, false),
        _ => (DataBits::Eight, true),
    }
}

/// Everything a bridge run needs: where the serial device is, how its
/// line is configured, and which TCP port to listen on. Flow control is
/// always off and is not represented.
pub struct Config {
    pub device: String,
    pub baud_rate: u32,
    pub data_bits: DataBits,
    pub parity: Parity,
    pub stop_bits: StopBits,
    pub tcp_port: u16,
}

/// Builds the configuration record from raw inputs. Every field is taken
/// verbatim except the data-bits count, which resolves with the fallback
/// of `resolve_data_bits`; the second component is true exactly when the
/// fallback was taken.
pub fn build_config(
    device: String,
    baud_rate: u32,
    data_bits: u8,
    parity: Parity,
    stop_bits: StopBits,
    tcp_port: u16,
) -> (r: (Config, bool))
    ensures
        r.0.device@ == device@,
        r.0.baud_rate == baud_rate,
        r.0.data_bits == resolved_data_bits(data_bits),
        r.0.parity == parity,
        r.0.stop_bits == stop_bits,
        r.0.tcp_port == tcp_port,
        r.1 == !data_bits_supported(data_bits),
{
    let (bits, warn) = resolve_data_bits(data_bits);
    let config = Config {
        device,
        baud_rate,
        data_bits: bits,
        parity,
        stop_bits,
        tcp_port,
    };
    (config, warn)
}

} // verus!
