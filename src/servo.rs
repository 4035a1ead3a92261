//! A servo bound to one output-compare channel of a 16-bit timer.
//!
//! The timer's clock select bits and period register are shared by all its
//! channels: switching the mode of one servo changes the PWM period of every
//! other servo on the same timer. Callers must not mix modes on one timer.

use vstd::prelude::*;
use crate::timer::{wiring, wiring_spec, Channel, Pin, Timer16, TimerId, with_clock_select, control_a_pwm, control_b_pwm};
use crate::timing::{timing, timing_spec, ticks, rotation_ticks, lemma_modes_disjoint, ServoMode};

verus! {

/// What `get_mode` reports for each mode.
pub open spec fn mode_name(mode: ServoMode) -> Seq<char> {
    match mode {
        ServoMode::Fast => "ServoMode::Fast"@,
        ServoMode::Precise => "ServoMode::Precise"@,
    }
}

/// The registers after a channel is set up for servo control: control
/// registers reset, fast PWM mode 14 with the channel's compare output
/// enabled, prescale 64, TOP and the 0 degree duty of fast mode.
pub open spec fn configured(t: Timer16, ch: Channel) -> Timer16 {
    let e = timing_spec(ServoMode::Fast);
    (Timer16 {
        tccr_a: control_a_pwm(ch),
        tccr_b: control_b_pwm(e.clock_select),
        tccr_c: 0,
        icr: e.period_top,
        ..t
    }).with_ocr(ch, e.duty_min)
}

/// The registers after a switch to `mode` through channel `ch`: the clock
/// select bits and TOP of the mode, and the channel's duty at its minimum.
/// The timer's other bits and the other channels' duties are kept.
pub open spec fn mode_switched(t: Timer16, ch: Channel, mode: ServoMode) -> Timer16 {
    let e = timing_spec(mode);
    (Timer16 { tccr_b: with_clock_select(t.tccr_b, e.clock_select), icr: e.period_top, ..t }).with_ocr(
        ch,
        e.duty_min,
    )
}

/// Operations of a servo on a timer channel.
pub trait ServoPinOps: Sized {
    /// The current mode of operation.
    spec fn mode(&self) -> ServoMode;

    /// The timer that drives the servo.
    spec fn timer(&self) -> TimerId;

    /// The output-compare channel that drives the servo.
    spec fn channel(&self) -> Channel;

    /// The pin that carries the PWM signal.
    spec fn pin(&self) -> Pin;

    /// Takes a pin and the timer wired to it, sets the timer up for servo
    /// control in fast mode at 0 degrees, and sets the pin to output.
    fn new(tc: &mut Timer16, pin: Pin) -> (r: Self)
        requires
            wiring_spec(pin.port).0 == old(tc).id,
        ensures
            r.mode() == ServoMode::Fast,
            r.timer() == old(tc).id,
            r.channel() == wiring_spec(pin.port).1,
            r.pin() == (Pin { port: pin.port, output: true }),
            *final(tc) == configured(*old(tc), wiring_spec(pin.port).1),
    ;

    /// Changes the mode of operation, and with it the timer's clock select
    /// bits and TOP; the servo's duty goes to the new mode's minimum.
    ///
    /// This applies to the whole timer and affects every servo on it.
    fn set_mode(&mut self, tc: &mut Timer16, mode: ServoMode)
        requires
            old(tc).id == old(self).timer(),
        ensures
            final(self).mode() == mode,
            final(self).timer() == old(self).timer(),
            final(self).channel() == old(self).channel(),
            final(self).pin() == old(self).pin(),
            *final(tc) == mode_switched(*old(tc), old(self).channel(), mode),
    ;

    /// The current mode, as text.
    fn get_mode(&self) -> (r: &str)
        ensures
            r@ == mode_name(self.mode()),
    ;

    /// Sets the rotation, in degrees, and returns the duty written.
    ///
    /// The intended range is 0 to 180; larger angles are not clamped and
    /// extrapolate past the maximum duty.
    fn set_rotation(&self, tc: &mut Timer16, degrees: u8) -> (r: u16)
        requires
            old(tc).id == self.timer(),
        ensures
            r as int == ticks(self.mode(), degrees as int),
            *final(tc) == old(tc).with_ocr(self.channel(), r),
    ;
}

/// A servo on one pin, driven by one channel of a 16-bit timer.
///
/// It is always set up at 0 degrees, in fast mode.
pub struct ServoPin {
    /// Pin that carries the PWM signal.
    pin: Pin,
    /// Timer/counter: 1, 3, 4 or 5.
    timer: TimerId,
    /// Output-compare channel of the timer.
    channel: Channel,
    /// Mode of operation.
    mode: ServoMode,
}

impl ServoPin {
    /// The servo that `new` returns for a pin.
    pub closed spec fn configure_spec(pin: Pin) -> ServoPin {
        ServoPin {
            pin: Pin { port: pin.port, output: true },
            timer: wiring_spec(pin.port).0,
            channel: wiring_spec(pin.port).1,
            mode: ServoMode::Fast,
        }
    }

    /// The servo after `set_mode(mode)`.
    pub closed spec fn switch_mode(self, mode: ServoMode) -> ServoPin {
        ServoPin { mode, ..self }
    }
}

impl ServoPinOps for ServoPin {
    closed spec fn mode(&self) -> ServoMode {
        self.mode
    }

    closed spec fn timer(&self) -> TimerId {
        self.timer
    }

    closed spec fn channel(&self) -> Channel {
        self.channel
    }

    closed spec fn pin(&self) -> Pin {
        self.pin
    }

    fn new(tc: &mut Timer16, pin: Pin) -> (r: ServoPin)
        ensures
            r == ServoPin::configure_spec(pin),
    {
        let (timer, channel) = wiring(pin.port);
        let e = timing(ServoMode::Fast);
        tc.reset_control();
        tc.write_pwm_mode(channel, e.clock_select);
        tc.write_top(e.period_top);
        tc.write_compare(channel, e.duty_min);
        let pin = pin.into_output();
        ServoPin { pin, timer, channel, mode: ServoMode::Fast }
    }

    fn set_mode(&mut self, tc: &mut Timer16, mode: ServoMode)
        ensures
            *final(self) == old(self).switch_mode(mode),
    {
        self.mode = mode;
        let e = timing(mode);
        tc.select_clock(e.clock_select);
        tc.write_top(e.period_top);
        tc.write_compare(self.channel, e.duty_min);
    }

    fn get_mode(&self) -> (r: &str) {
        match self.mode {
            ServoMode::Fast => "ServoMode::Fast",
            ServoMode::Precise => "ServoMode::Precise",
        }
    }

    fn set_rotation(&self, tc: &mut Timer16, degrees: u8) -> (r: u16) {
        let setpoint = rotation_ticks(self.mode, degrees);
        tc.write_compare(self.channel, setpoint);
        setpoint
    }
}

/// A servo that was just set up is in fast mode, and `get_mode` says so.
pub proof fn lemma_new_is_fast(pin: Pin)
    ensures
        ServoPin::configure_spec(pin).mode() == ServoMode::Fast,
        mode_name(ServoPin::configure_spec(pin).mode()) == "ServoMode::Fast"@,
{
}

/// The mode is the one set last, whatever was set before, and `get_mode`
/// reports it by a name that tells the two modes apart.
pub proof fn lemma_mode_follows_last_set(p: ServoPin, first: ServoMode, last: ServoMode)
    ensures
        p.switch_mode(first).switch_mode(last).mode() == last,
        mode_name(p.switch_mode(first).switch_mode(last).mode()) == mode_name(last),
        mode_name(ServoMode::Fast) != mode_name(ServoMode::Precise),
{
    reveal_strlit("ServoMode::Fast");
    reveal_strlit("ServoMode::Precise");
    assert(mode_name(ServoMode::Fast).len() != mode_name(ServoMode::Precise).len());
}

/// After a mode switch, with no new set-up in between, every angle maps
/// through the new mode's timing row; after a switch to precise mode no
/// angle gives a duty that fast mode could give.
pub proof fn lemma_rotation_after_switch(p: ServoPin, mode: ServoMode, degrees: int)
    requires
        0 <= degrees <= 255,
    ensures
        ticks(p.switch_mode(mode).mode(), degrees) == ticks(mode, degrees),
        forall|d: int|
            0 <= d <= 255 ==> #[trigger] ticks(ServoMode::Fast, d) < ticks(
                p.switch_mode(ServoMode::Precise).mode(),
                degrees,
            ),
{
    assert forall|d: int| 0 <= d <= 255 implies #[trigger] ticks(ServoMode::Fast, d) < ticks(
        p.switch_mode(ServoMode::Precise).mode(),
        degrees,
    ) by {
        lemma_modes_disjoint(d, degrees);
    }
}

} // verus!
