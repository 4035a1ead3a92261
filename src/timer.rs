//! A register-level model of a 16-bit timer/counter and the pins wired to
//! its output-compare channels.
//!
//! The model holds, as plain values, the registers that the servo driver
//! writes: the control registers TCCRnA/B/C, the period register ICRn and
//! the three output-compare registers OCRnA/B/C. Code around the library
//! copies them to the hardware.

use vstd::prelude::*;

verus! {

/// Fast PWM with TOP in ICRn (mode 14, 0b1110): WGMn1:0, in TCCRnA.
pub const WGM01: u8 = 0b10;

/// Fast PWM with TOP in ICRn (mode 14, 0b1110): WGMn3:2, in TCCRnB.
pub const WGM23: u8 = 0b11;

/// Compare output mode for fast PWM: clear OCnx on compare match, set it at
/// BOTTOM (COMnx1:0 in TCCRnA).
pub const COM1A: u8 = 0b10;

/// Mask of the clock select bits CSn2:0 in TCCRnB.
pub const CS_MASK: u8 = 0b111;

/// The 16-bit timer/counters of the ATmega2560.
#[derive(Clone, Copy, Debug, PartialEq, Eq, Structural)]
pub enum TimerId {
    Tc1,
    Tc3,
    Tc4,
    Tc5,
}

/// The output-compare channel of a timer.
#[derive(Clone, Copy, Debug, PartialEq, Eq, Structural)]
pub enum Channel {
    A,
    B,
    C,
}

/// The pins that an output-compare channel of a 16-bit timer drives.
#[derive(Clone, Copy, Debug, PartialEq, Eq, Structural)]
pub enum Port {
    /// Pin D13, OC1C.
    PB7,
    /// Pin D12, OC1B.
    PB6,
    /// Pin D11, OC1A.
    PB5,
    /// Pin D3, OC3C.
    PE5,
    /// Pin D2, OC3B.
    PE4,
    /// Pin D5, OC3A.
    PE3,
    /// Pin D8, OC4C.
    PH5,
    /// Pin D7, OC4B.
    PH4,
    /// Pin D6, OC4A.
    PH3,
    /// Pin D44, OC5C.
    PL5,
    /// Pin D45, OC5B.
    PL4,
    /// Pin D46, OC5A.
    PL3,
}

/// The timer and channel that drive each pin.
pub open spec fn wiring_spec(port: Port) -> (TimerId, Channel) {
    match port {
        Port::PB7 => (TimerId::Tc1, Channel::C),
        Port::PB6 => (TimerId::Tc1, Channel::B),
        Port::PB5 => (TimerId::Tc1, Channel::A),
        Port::PE5 => (TimerId::Tc3, Channel::C),
        Port::PE4 => (TimerId::Tc3, Channel::B),
        Port::PE3 => (TimerId::Tc3, Channel::A),
        Port::PH5 => (TimerId::Tc4, Channel::C),
        Port::PH4 => (TimerId::Tc4, Channel::B),
        Port::PH3 => (TimerId::Tc4, Channel::A),
        Port::PL5 => (TimerId::Tc5, Channel::C),
        Port::PL4 => (TimerId::Tc5, Channel::B),
        Port::PL3 => (TimerId::Tc5, Channel::A),
    }
}

/// Looks up the timer and channel that drive a pin.
pub fn wiring(port: Port) -> (r: (TimerId, Channel))
    ensures
        r == wiring_spec(port),
{
    match port {
        Port::PB7 => (TimerId::Tc1, Channel::C),
        Port::PB6 => (TimerId::Tc1, Channel::B),
        Port::PB5 => (TimerId::Tc1, Channel::A),
        Port::PE5 => (TimerId::Tc3, Channel::C),
        Port::PE4 => (TimerId::Tc3, Channel::B),
        Port::PE3 => (TimerId::Tc3, Channel::A),
        Port::PH5 => (TimerId::Tc4, Channel::C),
        Port::PH4 => (TimerId::Tc4, Channel::B),
        Port::PH3 => (TimerId::Tc4, Channel::A),
        Port::PL5 => (TimerId::Tc5, Channel::C),
        Port::PL4 => (TimerId::Tc5, Channel::B),
        Port::PL3 => (TimerId::Tc5, Channel::A),
    }
}

/// A digital pin and its direction.
#[derive(Clone, Copy, Debug, PartialEq, Eq, Structural)]
pub struct Pin {
    pub port: Port,
    /// Whether the pin is set to output.
    pub output: bool,
}

impl Pin {
    /// A pin as it comes out of reset: an input.
    pub fn input(port: Port) -> (r: Pin)
        ensures
            r.port == port,
            !r.output,
    {
        Pin { port, output: false }
    }

    /// Sets the pin's direction to output.
    pub fn into_output(self) -> (r: Pin)
        ensures
            r.port == self.port,
            r.output,
    {
        Pin { port: self.port, output: true }
    }
}

/// Position of the COMnx1:0 field of a channel in TCCRnA.
pub open spec fn com_shift(ch: Channel) -> u8 {
    match ch {
        Channel::A => 6,
        Channel::B => 4,
        Channel::C => 2,
    }
}

/// TCCRnA for fast PWM mode 14 with the given channel's compare output
/// enabled.
pub open spec fn control_a_pwm(ch: Channel) -> u8 {
    ((COM1A << com_shift(ch)) | WGM01) as u8
}

/// TCCRnB for fast PWM mode 14 with the given clock select bits.
pub open spec fn control_b_pwm(cs: u8) -> u8 {
    ((WGM23 << 3u8) | cs) as u8
}

/// TCCRnB with its clock select field replaced and its other bits kept.
pub open spec fn with_clock_select(b: u8, cs: u8) -> u8 {
    ((b & !CS_MASK) | (cs & CS_MASK)) as u8
}

/// The registers of one 16-bit timer/counter.
#[derive(Clone, Copy, Debug, PartialEq, Eq, Structural)]
pub struct Timer16 {
    pub id: TimerId,
    /// TCCRnA: compare output modes and WGMn1:0.
    pub tccr_a: u8,
    /// TCCRnB: WGMn3:2 and the clock select bits.
    pub tccr_b: u8,
    /// TCCRnC: force output compare.
    pub tccr_c: u8,
    /// ICRn: TOP of the PWM period.
    pub icr: u16,
    pub ocr_a: u16,
    pub ocr_b: u16,
    pub ocr_c: u16,
}

impl Timer16 {
    /// The output-compare register of a channel.
    pub open spec fn ocr(self, ch: Channel) -> u16 {
        match ch {
            Channel::A => self.ocr_a,
            Channel::B => self.ocr_b,
            Channel::C => self.ocr_c,
        }
    }

    /// The registers after writing `v` to a channel's output-compare register.
    pub open spec fn with_ocr(self, ch: Channel, v: u16) -> Timer16 {
        match ch {
            Channel::A => Timer16 { ocr_a: v, ..self },
            Channel::B => Timer16 { ocr_b: v, ..self },
            Channel::C => Timer16 { ocr_c: v, ..self },
        }
    }

    /// A timer with every register at its reset value, zero.
    pub fn new(id: TimerId) -> (r: Timer16)
        ensures
            r.id == id,
            r.tccr_a == 0 && r.tccr_b == 0 && r.tccr_c == 0,
            r.icr == 0,
            r.ocr_a == 0 && r.ocr_b == 0 && r.ocr_c == 0,
    {
        Timer16 { id, tccr_a: 0, tccr_b: 0, tccr_c: 0, icr: 0, ocr_a: 0, ocr_b: 0, ocr_c: 0 }
    }

    /// Resets the three control registers to zero.
    pub fn reset_control(&mut self)
        ensures
            *final(self) == (Timer16 { tccr_a: 0, tccr_b: 0, tccr_c: 0, ..*old(self) }),
    {
        self.tccr_a = 0;
        self.tccr_b = 0;
        self.tccr_c = 0;
    }

    /// Sets fast PWM mode 14 and enables the compare output of a channel.
    pub fn write_pwm_mode(&mut self, ch: Channel, cs: u8)
        requires
            cs <= CS_MASK,
        ensures
            *final(self) == (Timer16 {
                tccr_a: control_a_pwm(ch),
                tccr_b: control_b_pwm(cs),
                ..*old(self)
            }),
    {
        let shift: u8 = match ch {
            Channel::A => 6,
            Channel::B => 4,
            Channel::C => 2,
        };
        self.tccr_a = (COM1A << shift) | WGM01;
        self.tccr_b = (WGM23 << 3u8) | cs;
    }

    /// Replaces the clock select bits of TCCRnB, keeping its other bits.
    pub fn select_clock(&mut self, cs: u8)
        ensures
            *final(self) == (Timer16 { tccr_b: with_clock_select(old(self).tccr_b, cs), ..*old(self) }),
    {
        self.tccr_b = (self.tccr_b & !CS_MASK) | (cs & CS_MASK);
    }

    /// Writes the TOP of the PWM period.
    pub fn write_top(&mut self, top: u16)
        ensures
            *final(self) == (Timer16 { icr: top, ..*old(self) }),
    {
        self.icr = top;
    }

    /// Writes a channel's output-compare register.
    pub fn write_compare(&mut self, ch: Channel, v: u16)
        ensures
            *final(self) == old(self).with_ocr(ch, v),
    {
        match ch {
            Channel::A => self.ocr_a = v,
            Channel::B => self.ocr_b = v,
            Channel::C => self.ocr_c = v,
        }
    }
}

} // verus!
