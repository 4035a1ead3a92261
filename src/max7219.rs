//! Register addresses and data framing for a MAX7219 8x8 LED matrix driver.
//!
//! A MAX7219 takes 16-bit words, most significant bit first: bits 15-12 are
//! unused, bits 11-8 hold the register address and bits 7-0 the data.

use vstd::prelude::*;

verus! {

pub const DIG_0: u8 = 0x0;
pub const DIG_1: u8 = 0x1;
pub const DIG_2: u8 = 0x2;
pub const DIG_3: u8 = 0x3;
pub const DIG_4: u8 = 0x4;
pub const DIG_5: u8 = 0x5;
pub const DIG_6: u8 = 0x6;
pub const DIG_7: u8 = 0x7;
pub const NO_OP: u8 = 0x0;
pub const MODE_DECODE: u8 = 0x9;
pub const INTENSITY: u8 = 0xA;
pub const SCAN_LIMIT: u8 = 0xB;
pub const SHUTDOWN: u8 = 0xC;
pub const DISPLAY_TEST: u8 = 0xF;

/// Lowest display intensity.
pub const INTENSITY_MIN: u8 = 0x0;

/// Highest display intensity.
pub const INTENSITY_MAX: u8 = 0xF;

/// The registers of a MAX7219.
#[allow(non_camel_case_types)]
#[derive(Clone, Copy, Debug, PartialEq, Eq, Structural)]
pub enum ADDRESS {
    DIG_0,
    DIG_1,
    DIG_2,
    DIG_3,
    DIG_4,
    DIG_5,
    DIG_6,
    DIG_7,
    NO_OP,
    MODE_DECODE,
    INTENSITY,
    SCAN_LIMIT,
    SHUTDOWN,
    DISPLAY_TEST,
}

/// The code of each register.
pub open spec fn address_code(a: ADDRESS) -> u8 {
    match a {
        ADDRESS::DIG_0 => DIG_0,
        ADDRESS::DIG_1 => DIG_1,
        ADDRESS::DIG_2 => DIG_2,
        ADDRESS::DIG_3 => DIG_3,
        ADDRESS::DIG_4 => DIG_4,
        ADDRESS::DIG_5 => DIG_5,
        ADDRESS::DIG_6 => DIG_6,
        ADDRESS::DIG_7 => DIG_7,
        ADDRESS::NO_OP => NO_OP,
        ADDRESS::MODE_DECODE => MODE_DECODE,
        ADDRESS::INTENSITY => INTENSITY,
        ADDRESS::SCAN_LIMIT => SCAN_LIMIT,
        ADDRESS::SHUTDOWN => SHUTDOWN,
        ADDRESS::DISPLAY_TEST => DISPLAY_TEST,
    }
}

impl ADDRESS {
    /// The register's code, as sent in bits 11-8 of a word.
    pub fn code(&self) -> (r: u8)
        ensures
            r == address_code(*self),
            r <= 0xF,
    {
        match self {
            ADDRESS::DIG_0 => DIG_0,
            ADDRESS::DIG_1 => DIG_1,
            ADDRESS::DIG_2 => DIG_2,
            ADDRESS::DIG_3 => DIG_3,
            ADDRESS::DIG_4 => DIG_4,
            ADDRESS::DIG_5 => DIG_5,
            ADDRESS::DIG_6 => DIG_6,
            ADDRESS::DIG_7 => DIG_7,
            ADDRESS::NO_OP => NO_OP,
            ADDRESS::MODE_DECODE => MODE_DECODE,
            ADDRESS::INTENSITY => INTENSITY,
            ADDRESS::SCAN_LIMIT => SCAN_LIMIT,
            ADDRESS::SHUTDOWN => SHUTDOWN,
            ADDRESS::DISPLAY_TEST => DISPLAY_TEST,
        }
    }
}

/// The word that carries `data` to register `address`: the address in the
/// high byte, the data in the low byte.
pub fn serialize(address: u8, data: u8) -> (r: u16)
    ensures
        r as int == address as int * 256 + data as int,
{
    let a = address as u16;
    let d = data as u16;
    let r = (a << 8u16) | d;
    assert(r == a * 256 + d) by (bit_vector)
        requires
            r == (a << 8u16) | d,
            a < 256,
            d < 256,
    ;
    r
}

} // verus!
