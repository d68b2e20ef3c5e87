use vstd::prelude::*;

verus! {

/// The register-level state of one sound channel.  Fields hold decoded
/// physical units as plain integers: `sweep_time` in tenths of a
/// millisecond, `wave_pattern` (the duty cycle) in tenths of a percent, and
/// `volume` in percent for the wave channel.  Only the register state is
/// modeled; waveform synthesis is a collaborator.
#[derive(Clone, Copy, PartialEq, Eq, Structural, Debug)]
pub struct Sound {
    /// Sweep time in tenths of a millisecond: one of 0, 78, 156, 234, 313,
    /// 391, 469 or 547.
    pub sweep_time: u32,
    /// Sweep direction: false increases, true decreases.
    pub sweep_mode: bool,
    pub shift: u32,

    /// Duty cycle in tenths of a percent: one of 125, 250, 500 or 750.
    pub wave_pattern: u32,
    pub length: u32,

    pub initial_volume: u16,
    /// Envelope direction: false increases, true decreases.
    pub direction: bool,
    pub sweeps: u8,

    pub initial: u8,
    pub counter: u8,
    pub frequency: u8,

    pub enable: bool,

    pub volume: u32,

    pub shift_clock: u32,
    pub width: u32,
    pub ratio: u32,

    /// The channel's output-terminal selection nibble.
    pub output_selection: u8,
}

/// The 3-bit register code for a sweep time held in tenths of a millisecond.
pub open spec fn spec_sweep_code(t: u32) -> int {
    if t == 78 {
        1
    } else if t == 156 {
        2
    } else if t == 234 {
        3
    } else if t == 313 {
        4
    } else if t == 391 {
        5
    } else if t == 469 {
        6
    } else if t == 547 {
        7
    } else {
        0
    }
}

/// The sweep time, in tenths of a millisecond, for a 3-bit register code.
pub open spec fn spec_sweep_tenths(code: int) -> u32 {
    if code == 1 {
        78
    } else if code == 2 {
        156
    } else if code == 3 {
        234
    } else if code == 4 {
        313
    } else if code == 5 {
        391
    } else if code == 6 {
        469
    } else if code == 7 {
        547
    } else {
        0
    }
}

/// The 2-bit register code for a duty cycle held in tenths of a percent.
pub open spec fn spec_duty_code(w: u32) -> int {
    if w == 250 {
        1
    } else if w == 500 {
        2
    } else if w == 750 {
        3
    } else {
        0
    }
}

/// The duty cycle, in tenths of a percent, for a 2-bit register code.
pub open spec fn spec_duty_tenths(code: int) -> u32 {
    if code == 1 {
        250
    } else if code == 2 {
        500
    } else if code == 3 {
        750
    } else {
        125
    }
}

/// The 2-bit register code for the wave channel's volume percentage.
pub open spec fn spec_vol_code(v: u32) -> int {
    if v == 100 {
        1
    } else if v == 50 {
        2
    } else if v == 25 {
        3
    } else {
        0
    }
}

/// The wave channel's volume percentage for a 2-bit register code.
pub open spec fn spec_vol_pct(code: int) -> u32 {
    if code == 1 {
        100
    } else if code == 2 {
        50
    } else if code == 3 {
        25
    } else {
        0
    }
}

/// The sweep register decoded: time code in bits 6..4, shift count in bits
/// 2..0.  The direction is set only when the whole low nibble equals 1, so
/// it does not round-trip through bit 3 alone.
pub open spec fn spec_sound_sweep_store(s: Sound, v: u8) -> Sound {
    Sound {
        sweep_time: spec_sweep_tenths((v as int / 16) % 8),
        sweep_mode: v as int % 16 == 1,
        shift: (v as int % 8) as u32,
        ..s
    }
}

pub open spec fn spec_sound_sweep_load(s: Sound) -> int {
    spec_sweep_code(s.sweep_time) * 16 + (if s.sweep_mode {
        8int
    } else {
        0int
    }) + s.shift as int % 8
}

/// The length register decoded: duty code in bits 7..6.  The sound length
/// itself scales by a sub-unit reciprocal that truncates to zero in integer
/// units, so the stored length is 0.
pub open spec fn spec_sound_duty_store(s: Sound, v: u8) -> Sound {
    Sound { wave_pattern: spec_duty_tenths((v as int / 64) % 4), length: 0, ..s }
}

pub open spec fn spec_sound_duty_load(s: Sound) -> int {
    spec_duty_code(s.wave_pattern) * 64 + s.length as int % 64
}

/// The envelope register decoded: initial volume in bits 7..4, direction in
/// bit 3, and the sweep count's bit 2.
pub open spec fn spec_sound_envelope_store(s: Sound, v: u8) -> Sound {
    Sound {
        initial_volume: (v as int / 16) as u16,
        direction: (v as int / 8) % 2 == 1,
        sweeps: (((v as int / 4) % 2) * 4) as u8,
        ..s
    }
}

pub open spec fn spec_sound_envelope_load(s: Sound) -> int {
    (s.initial_volume as int % 16) * 16 + (if s.direction {
        8int
    } else {
        0int
    }) + s.sweeps as int % 8
}

/// The frequency-control register decoded: restart in bit 7, the length
/// counter gate in bit 6, frequency bits in bits 2..0.
pub open spec fn spec_sound_freq_store(s: Sound, v: u8) -> Sound {
    Sound {
        initial: ((v as int / 128) % 2) as u8,
        counter: ((v as int / 64) % 2) as u8,
        frequency: (v as int % 8) as u8,
        ..s
    }
}

pub open spec fn spec_sound_freq_load(s: Sound) -> int {
    (s.initial as int % 2) * 128 + (s.counter as int % 2) * 64 + s.frequency as int % 64
}

impl Sound {
    pub fn new() -> (r: Sound)
        ensures
            r == (Sound {
                sweep_time: 0,
                sweep_mode: false,
                shift: 0,
                wave_pattern: 500,
                length: 0,
                initial_volume: 0,
                direction: false,
                sweeps: 0,
                initial: 0,
                counter: 0,
                frequency: 0,
                enable: false,
                volume: 0,
                shift_clock: 0,
                width: 0,
                ratio: 0,
                output_selection: 0,
            }),
    {
        Sound {
            sweep_time: 0,
            sweep_mode: false,
            shift: 0,

            wave_pattern: 500,
            length: 0,

            initial_volume: 0,
            direction: false,
            sweeps: 0,

            initial: 0,
            counter: 0,
            frequency: 0,

            enable: false,

            volume: 0,

            shift_clock: 0,
            width: 0,
            ratio: 0,

            output_selection: 0,
        }
    }

    pub fn sweep_store(&mut self, value: u8)
        ensures
            *final(self) == spec_sound_sweep_store(*old(self), value),
    {
        let code: u8 = (value / 16) % 8;
        self.sweep_time = if code == 1 {
            78
        } else if code == 2 {
            156
        } else if code == 3 {
            234
        } else if code == 4 {
            313
        } else if code == 5 {
            391
        } else if code == 6 {
            469
        } else if code == 7 {
            547
        } else {
            0
        };
        self.sweep_mode = value % 16 == 1;
        self.shift = (value % 8) as u32;
    }

    pub fn sweep_load(&self) -> (r: u8)
        ensures
            r == spec_sound_sweep_load(*self),
    {
        let code: u8 = if self.sweep_time == 78 {
            1
        } else if self.sweep_time == 156 {
            2
        } else if self.sweep_time == 234 {
            3
        } else if self.sweep_time == 313 {
            4
        } else if self.sweep_time == 391 {
            5
        } else if self.sweep_time == 469 {
            6
        } else if self.sweep_time == 547 {
            7
        } else {
            0
        };
        code * 16 + (if self.sweep_mode {
            8u8
        } else {
            0u8
        }) + (self.shift % 8) as u8
    }

    pub fn duty_store(&mut self, value: u8)
        ensures
            *final(self) == spec_sound_duty_store(*old(self), value),
    {
        let code: u8 = (value / 64) % 4;
        self.wave_pattern = if code == 1 {
            250
        } else if code == 2 {
            500
        } else if code == 3 {
            750
        } else {
            125
        };
        self.length = 0;
    }

    pub fn duty_load(&self) -> (r: u8)
        ensures
            r == spec_sound_duty_load(*self),
    {
        let code: u8 = if self.wave_pattern == 250 {
            1
        } else if self.wave_pattern == 500 {
            2
        } else if self.wave_pattern == 750 {
            3
        } else {
            0
        };
        code * 64 + (self.length % 64) as u8
    }

    pub fn envelope_store(&mut self, value: u8)
        ensures
            *final(self) == spec_sound_envelope_store(*old(self), value),
    {
        self.initial_volume = (value / 16) as u16;
        self.direction = (value / 8) % 2 == 1;
        self.sweeps = ((value / 4) % 2) * 4;
    }

    pub fn envelope_load(&self) -> (r: u8)
        ensures
            r == spec_sound_envelope_load(*self),
    {
        ((self.initial_volume % 16) * 16) as u8 + (if self.direction {
            8u8
        } else {
            0u8
        }) + self.sweeps % 8
    }

    pub fn freq_store(&mut self, value: u8)
        ensures
            *final(self) == spec_sound_freq_store(*old(self), value),
    {
        self.initial = (value / 128) % 2;
        self.counter = (value / 64) % 2;
        self.frequency = value % 8;
    }

    pub fn freq_load(&self) -> (r: u8)
        ensures
            r == spec_sound_freq_load(*self),
    {
        (self.initial % 2) * 128 + (self.counter % 2) * 64 + self.frequency % 64
    }
}

} // verus!
