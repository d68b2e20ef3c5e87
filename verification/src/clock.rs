use vstd::prelude::*;

verus! {

/// The timer unit: a free-running divider, an event counter with a
/// configurable rate, and the sub-period cycle accumulator that carries the
/// remainder between advances.  `mode` holds the selected rate in Hz;
/// `reload` mirrors the timer-reload register.
#[derive(Clone, Copy, PartialEq, Eq, Structural, Debug)]
pub struct Clock {
    pub divider: u8,
    pub counter: u16,
    pub mode: u32,

    pub enabled: bool,

    pub acc: u32,
    pub reload: u8,
}

/// The period, in machine cycles, of one counter tick at the given rate:
/// the 4194304 Hz master clock divided by the rate.  Rates outside the four
/// selectable ones are treated as the slowest selection.
pub open spec fn period(mode: u32) -> int {
    if mode == 262144 {
        16
    } else if mode == 65536 {
        64
    } else if mode == 16384 {
        256
    } else {
        1024
    }
}

/// The timer state after `cycles` elapsed machine cycles, paired with
/// whether the event counter overflowed its 16-bit range (which must raise
/// the timer's pending-interrupt bit).  The divider always advances, one
/// step per cycle, modulo 256.  The counter advances only while enabled, by
/// one tick per full period of elapsed cycles; partial periods are kept in
/// the accumulator.
pub open spec fn spec_clock_advance(c: Clock, cycles: u16) -> (Clock, bool) {
    let divider = ((c.divider + cycles) % 256) as u8;
    if c.enabled {
        let total = c.acc + cycles;
        let ticks = total / period(c.mode);
        let acc = (total % period(c.mode)) as u32;
        let raw = c.counter + ticks;
        let overflow = raw > 0xFFFF;
        let counter = (raw % 0x10000) as u16;
        (Clock { divider, counter, acc, ..c }, overflow)
    } else {
        (Clock { divider, ..c }, false)
    }
}

impl Clock {
    pub fn new() -> (r: Clock)
        ensures
            r == (Clock {
                divider: 0,
                counter: 0,
                mode: 0,
                enabled: false,
                acc: 0,
                reload: 0,
            }),
    {
        Clock {
            divider: 0,
            counter: 0,
            mode: 0,

            enabled: false,

            acc: 0,
            reload: 0,
        }
    }

    /// Advances the timer by the given number of elapsed machine cycles and
    /// reports whether the event counter overflowed.
    pub fn advance(&mut self, cycles: u16) -> (overflow: bool)
        ensures
            (*final(self), overflow) == spec_clock_advance(*old(self), cycles),
    {
        self.divider = ((self.divider as u32 + cycles as u32) % 256) as u8;
        if self.enabled {
            let p: u32 = if self.mode == 262144 {
                16
            } else if self.mode == 65536 {
                64
            } else if self.mode == 16384 {
                256
            } else {
                1024
            };
            let total: u64 = self.acc as u64 + cycles as u64;
            let ticks: u64 = total / p as u64;
            self.acc = (total % p as u64) as u32;
            let raw: u64 = self.counter as u64 + ticks;
            let overflow = raw > 0xFFFF;
            self.counter = (raw % 0x10000) as u16;
            overflow
        } else {
            false
        }
    }
}

/// Timer rate law: with the 16384 Hz rate selected and the timer enabled,
/// starting from an empty accumulator, `n` elapsed cycles advance the event
/// counter by `n / 256` ticks, wrapping modulo its 16-bit range; the
/// overflow report (which raises the timer's pending-interrupt bit) comes
/// exactly when the ticks run past that range.  The divider advances by `n`
/// modulo 256 regardless.
pub proof fn lemma_timer_rate_16384(c: Clock, n: u16)
    requires
        c.mode == 16384,
        c.enabled,
        c.acc == 0,
    ensures
        spec_clock_advance(c, n).0.counter == (c.counter + n / 256) % 0x10000,
        spec_clock_advance(c, n).1 == (c.counter + n / 256 > 0xFFFF),
        spec_clock_advance(c, n).0.divider == (c.divider + n) % 256,
        spec_clock_advance(c, n).0.mode == c.mode,
        spec_clock_advance(c, n).0.enabled,
{
}

} // verus!
