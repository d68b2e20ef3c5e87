use vstd::prelude::*;

verus! {

/// The interrupt-enable latches: one software-controlled flag per interrupt
/// source, exposed as one packed byte (bit 0 v-blank, 1 lcd-stat, 2 timer,
/// 3 serial, 4 joypad).
#[derive(Clone, Copy, PartialEq, Eq, Structural, Debug)]
pub struct InterruptEnable {
    pub v_blank: bool,
    pub lcd_stat: bool,
    pub timer: bool,
    pub serial: bool,
    pub joypad: bool,
}

/// The pending-interrupt latches, with the same bit layout as the enable
/// latches.  Hardware events set these; software reads and rewrites them
/// through the bus.
#[derive(Clone, Copy, PartialEq, Eq, Structural, Debug)]
pub struct InterruptFlag {
    pub v_blank: bool,
    pub lcd_stat: bool,
    pub timer: bool,
    pub serial: bool,
    pub joypad: bool,
}

pub open spec fn bit_val(b: bool, weight: int) -> int {
    if b {
        weight
    } else {
        0
    }
}

/// The enable latches packed into one byte.
pub open spec fn spec_ie_data(i: InterruptEnable) -> int {
    bit_val(i.joypad, 16) + bit_val(i.serial, 8) + bit_val(i.timer, 4) + bit_val(i.lcd_stat, 2)
        + bit_val(i.v_blank, 1)
}

/// The pending latches packed into one byte.
pub open spec fn spec_if_data(i: InterruptFlag) -> int {
    bit_val(i.joypad, 16) + bit_val(i.serial, 8) + bit_val(i.timer, 4) + bit_val(i.lcd_stat, 2)
        + bit_val(i.v_blank, 1)
}

/// The enable latches decoded from a stored byte.
pub open spec fn spec_ie_of_byte(v: u8) -> InterruptEnable {
    InterruptEnable {
        v_blank: v % 2 == 1,
        lcd_stat: (v / 2) % 2 == 1,
        timer: (v / 4) % 2 == 1,
        serial: (v / 8) % 2 == 1,
        joypad: (v / 16) % 2 == 1,
    }
}

/// The pending latches decoded from a stored byte.
pub open spec fn spec_if_of_byte(v: u8) -> InterruptFlag {
    InterruptFlag {
        v_blank: v % 2 == 1,
        lcd_stat: (v / 2) % 2 == 1,
        timer: (v / 4) % 2 == 1,
        serial: (v / 8) % 2 == 1,
        joypad: (v / 16) % 2 == 1,
    }
}

/// Some interrupt source is both enabled and pending; together with the
/// master enable this is what delivery (and waking from halt) requires.
pub open spec fn spec_irq_ready(ie: InterruptEnable, ifl: InterruptFlag) -> bool {
    (ie.v_blank && ifl.v_blank) || (ie.lcd_stat && ifl.lcd_stat) || (ie.timer && ifl.timer) || (
    ie.serial && ifl.serial) || (ie.joypad && ifl.joypad)
}

impl InterruptEnable {
    pub fn new() -> (r: InterruptEnable)
        ensures
            r == (InterruptEnable {
                v_blank: false,
                lcd_stat: false,
                timer: false,
                serial: false,
                joypad: false,
            }),
    {
        InterruptEnable {
            v_blank: false,
            lcd_stat: false,
            timer: false,
            serial: false,
            joypad: false,
        }
    }

    pub fn get_data(&self) -> (r: u8)
        ensures
            r == spec_ie_data(*self),
    {
        (if self.joypad {
            16u8
        } else {
            0u8
        }) + (if self.serial {
            8u8
        } else {
            0u8
        }) + (if self.timer {
            4u8
        } else {
            0u8
        }) + (if self.lcd_stat {
            2u8
        } else {
            0u8
        }) + (if self.v_blank {
            1u8
        } else {
            0u8
        })
    }

    pub fn set_data(&mut self, value: u8)
        ensures
            *final(self) == spec_ie_of_byte(value),
    {
        self.v_blank = value % 2 == 1;
        self.lcd_stat = (value / 2) % 2 == 1;
        self.timer = (value / 4) % 2 == 1;
        self.serial = (value / 8) % 2 == 1;
        self.joypad = (value / 16) % 2 == 1;
    }
}

impl InterruptFlag {
    /// The v-blank pending bit starts set, as it is on powered-up hardware.
    pub fn new() -> (r: InterruptFlag)
        ensures
            r == (InterruptFlag {
                v_blank: true,
                lcd_stat: false,
                timer: false,
                serial: false,
                joypad: false,
            }),
    {
        InterruptFlag {
            v_blank: true,
            lcd_stat: false,
            timer: false,
            serial: false,
            joypad: false,
        }
    }

    pub fn get_data(&self) -> (r: u8)
        ensures
            r == spec_if_data(*self),
    {
        (if self.joypad {
            16u8
        } else {
            0u8
        }) + (if self.serial {
            8u8
        } else {
            0u8
        }) + (if self.timer {
            4u8
        } else {
            0u8
        }) + (if self.lcd_stat {
            2u8
        } else {
            0u8
        }) + (if self.v_blank {
            1u8
        } else {
            0u8
        })
    }

    pub fn set_data(&mut self, value: u8)
        ensures
            *final(self) == spec_if_of_byte(value),
    {
        self.v_blank = value % 2 == 1;
        self.lcd_stat = (value / 2) % 2 == 1;
        self.timer = (value / 4) % 2 == 1;
        self.serial = (value / 8) % 2 == 1;
        self.joypad = (value / 16) % 2 == 1;
    }
}

} // verus!
