//! Register arithmetic for the programmable-interval-timer tone generator.
//!
//! The speaker is programmed by writing a clock divisor, low byte then high
//! byte, to the timer's data port, and switched on and off through the two
//! low bits of a control port. The port writes themselves are done by the
//! embedding program; this module computes exactly what is written.

use vstd::prelude::*;

verus! {

/// Base frequency of the programmable interval timer, in hertz.
pub const TIMER_BASE_HZ: u32 = 1193180;

/// The clock divisor that programs a tone of `freq` hertz: the timer base
/// frequency divided by the requested frequency.
///
/// The divisor is sent to the timer as two bytes, so it must fit in 16
/// bits; that bounds the requested frequency from below.
pub fn tone_divisor(freq: u32) -> (div: u32)
    requires
        19 <= freq,
    ensures
        div == 1193180 as int / freq as int,
        div <= 0xFFFF,
{
    let div = TIMER_BASE_HZ / freq;
    proof {
        assert(1193180 as int / freq as int <= 0xFFFF) by (nonlinear_arith)
            requires 19 <= freq;
    }
    div
}

/// The two bytes of the tone divisor for `freq`, in the order the timer
/// expects them: low byte first, high byte second.
pub fn tone_divisor_bytes(freq: u32) -> (r: (u8, u8))
    requires
        19 <= freq,
    ensures
        r.0 == (1193180 as int / freq as int) % 256,
        r.1 == (1193180 as int / freq as int) / 256,
{
    let div = tone_divisor(freq);
    ((div % 256) as u8, (div / 256) as u8)
}

/// The value to put back in the control port to switch the speaker on:
/// the two low bits set. `None` means both bits are already set and no
/// write is needed.
pub fn speaker_gate_on(state: u8) -> (r: Option<u8>)
    ensures
        state == state | 3 ==> r is None,
        state != state | 3 ==> r == Some(state | 3),
{
    let target = state | 3;
    if state != target {
        Some(target)
    } else {
        None
    }
}

/// The value to put back in the control port to switch the speaker off:
/// the two low bits cleared, everything else kept.
pub fn speaker_gate_off(state: u8) -> (r: u8)
    ensures
        r == state & 0xFC,
{
    state & 0xFC
}

} // verus!
