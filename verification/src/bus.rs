use vstd::prelude::*;

use crate::EmuError;
use crate::clock::{Clock, spec_clock_advance};
use crate::gui::{BG_MAP_SIZE, CHAR_DATA_SIZE, Gui, GuiV, SPRITE_ATTRIB_SIZE, gui_wf, spec_gui_new};
use crate::interrupt::{
    InterruptEnable, InterruptFlag, spec_ie_data, spec_ie_of_byte, spec_if_data, spec_if_of_byte,
    spec_irq_ready,
};
use crate::joypad::{Joypad, spec_joypad_keys};
use crate::mbc::{MBC, MBCV, mbc_wf, spec_readram, spec_readrom, spec_writeram, spec_writerom};
use crate::ram::{RAM_SIZE, Ram};
use crate::serial::Serial;
use crate::sound::{
    Sound, spec_sound_duty_load, spec_sound_duty_store, spec_sound_envelope_load,
    spec_sound_envelope_store, spec_sound_freq_load, spec_sound_freq_store, spec_sound_sweep_load,
    spec_sound_sweep_store, spec_vol_code, spec_vol_pct,
};

verus! {

/// An inclusive address interval.
#[derive(Clone, Copy, PartialEq, Eq, Structural, Debug)]
pub struct Range(pub u16, pub u16);

impl Range {
    /// The offset of an address inside the interval, or nothing when the
    /// address lies outside it.
    pub fn contains(self, addr: u16) -> (r: Option<u16>)
        ensures
            self.0 <= addr <= self.1 ==> r == Some((addr - self.0) as u16),
            !(self.0 <= addr <= self.1) ==> r is None,
    {
        if addr >= self.0 && addr <= self.1 {
            Some(addr - self.0)
        } else {
            None
        }
    }
}

/// The devices among which the 16-bit address space is partitioned.
#[derive(Clone, Copy, PartialEq, Eq, Structural, Debug)]
pub enum Region {
    FixedRom,
    SwitchableRom,
    CharacterData,
    BgMap1,
    BgMap2,
    CartridgeRam,
    WorkRam,
    EchoRam,
    SpriteAttrib,
    Unusable1,
    Io,
    Unusable2,
    HighRam,
    InterruptEnableReg,
}

/// The address interval a device claims, each stated independently of the
/// dispatch function so that the partition is a theorem, not a definition.
pub open spec fn region_claims(r: Region, addr: u16) -> bool {
    match r {
        Region::FixedRom => addr <= 0x3FFF,
        Region::SwitchableRom => 0x4000 <= addr <= 0x7FFF,
        Region::CharacterData => 0x8000 <= addr <= 0x97FF,
        Region::BgMap1 => 0x9800 <= addr <= 0x9BFF,
        Region::BgMap2 => 0x9C00 <= addr <= 0x9FFF,
        Region::CartridgeRam => 0xA000 <= addr <= 0xBFFF,
        Region::WorkRam => 0xC000 <= addr <= 0xDFFF,
        Region::EchoRam => 0xE000 <= addr <= 0xFDFF,
        Region::SpriteAttrib => 0xFE00 <= addr <= 0xFE9F,
        Region::Unusable1 => 0xFEA0 <= addr <= 0xFEFF,
        Region::Io => 0xFF00 <= addr <= 0xFF4B,
        Region::Unusable2 => 0xFF4C <= addr <= 0xFF7F,
        Region::HighRam => 0xFF80 <= addr <= 0xFFFE,
        Region::InterruptEnableReg => addr == 0xFFFF,
    }
}

/// The device that owns an address.
pub open spec fn region_of(addr: u16) -> Region {
    if addr <= 0x3FFF {
        Region::FixedRom
    } else if addr <= 0x7FFF {
        Region::SwitchableRom
    } else if addr <= 0x97FF {
        Region::CharacterData
    } else if addr <= 0x9BFF {
        Region::BgMap1
    } else if addr <= 0x9FFF {
        Region::BgMap2
    } else if addr <= 0xBFFF {
        Region::CartridgeRam
    } else if addr <= 0xDFFF {
        Region::WorkRam
    } else if addr <= 0xFDFF {
        Region::EchoRam
    } else if addr <= 0xFE9F {
        Region::SpriteAttrib
    } else if addr <= 0xFEFF {
        Region::Unusable1
    } else if addr <= 0xFF4B {
        Region::Io
    } else if addr <= 0xFF7F {
        Region::Unusable2
    } else if addr <= 0xFFFE {
        Region::HighRam
    } else {
        Region::InterruptEnableReg
    }
}

/// Address-space partition law: every 16-bit address is claimed by exactly
/// one device range — the one the dispatcher resolves it to.
pub proof fn lemma_address_partition(addr: u16)
    ensures
        region_claims(region_of(addr), addr),
        forall|r: Region| region_claims(r, addr) ==> r == region_of(addr),
{
}

/// The address bus: it owns every memory-mapped device except the injected
/// bank controller, dispatches each byte access by address range, and keeps
/// the elapsed-cycle counter that drives the timer.
pub struct Bus {
    pub mbc: MBC,

    pub clock: Clock,

    pub sound_channel_1: Sound,
    pub sound_channel_2: Sound,
    pub sound_channel_3: Sound,
    pub sound_channel_4: Sound,

    pub gui: Gui,

    pub ie: InterruptEnable,
    pub ifl: InterruptFlag,

    pub joypad: Joypad,

    pub serial: Serial,

    pub ram: Ram,
    pub hram: Vec<u8>,

    pub cycles: u64,
}

/// The mathematical state of the bus and all its devices.
#[verifier::ext_equal]
pub struct BusV {
    pub mbc: MBCV,
    pub clock: Clock,
    pub sound_channel_1: Sound,
    pub sound_channel_2: Sound,
    pub sound_channel_3: Sound,
    pub sound_channel_4: Sound,
    pub gui: GuiV,
    pub ie: InterruptEnable,
    pub ifl: InterruptFlag,
    pub joypad: Joypad,
    pub serial: Serial,
    pub ram: Seq<u8>,
    pub hram: Seq<u8>,
    pub cycles: u64,
}

impl View for Bus {
    type V = BusV;

    open spec fn view(&self) -> BusV {
        BusV {
            mbc: self.mbc@,
            clock: self.clock,
            sound_channel_1: self.sound_channel_1,
            sound_channel_2: self.sound_channel_2,
            sound_channel_3: self.sound_channel_3,
            sound_channel_4: self.sound_channel_4,
            gui: self.gui@,
            ie: self.ie,
            ifl: self.ifl,
            joypad: self.joypad,
            serial: self.serial,
            ram: self.ram@,
            hram: self.hram@,
            cycles: self.cycles,
        }
    }
}

pub const HRAM_SIZE: usize = 127;

/// The memories keep their fixed sizes and the bank controller its field
/// bounds.
pub open spec fn bus_wf(b: BusV) -> bool {
    mbc_wf(b.mbc) && gui_wf(b.gui) && b.ram.len() == RAM_SIZE && b.hram.len() == HRAM_SIZE
}

/// The power-up bus state around an injected bank controller.
pub open spec fn spec_bus_new(m: MBCV) -> BusV {
    BusV {
        mbc: m,
        clock: Clock { divider: 0, counter: 0, mode: 0, enabled: false, acc: 0, reload: 0 },
        sound_channel_1: spec_sound_init(),
        sound_channel_2: spec_sound_init(),
        sound_channel_3: spec_sound_init(),
        sound_channel_4: spec_sound_init(),
        gui: spec_gui_new(),
        ie: InterruptEnable {
            v_blank: false,
            lcd_stat: false,
            timer: false,
            serial: false,
            joypad: false,
        },
        ifl: InterruptFlag {
            v_blank: true,
            lcd_stat: false,
            timer: false,
            serial: false,
            joypad: false,
        },
        joypad: Joypad {
            is_direction: false,
            down: true,
            up: true,
            left: true,
            right: true,
            start: true,
            select: true,
            b: true,
            a: true,
        },
        serial: Serial { data: 0, control: 0, transfer_flag: false, clock: false },
        ram: Seq::new(RAM_SIZE as nat, |i: int| 0u8),
        hram: Seq::new(HRAM_SIZE as nat, |i: int| 0u8),
        cycles: 0,
    }
}

pub open spec fn spec_sound_init() -> Sound {
    Sound {
        sweep_time: 0,
        sweep_mode: false,
        shift: 0,
        wave_pattern: 500,
        length: 0,
        initial_volume: 0,
        direction: false,
        sweeps: 0,
        initial: 0,
        counter: 0,
        frequency: 0,
        enable: false,
        volume: 0,
        shift_clock: 0,
        width: 0,
        ratio: 0,
        output_selection: 0,
    }
}

/// The bus state after `value` elapsed machine cycles: the cycle counter
/// advances (wrapping in 64 bits), the timer divider and event counter
/// advance, and a counter overflow raises the timer's pending-interrupt bit.
pub open spec fn spec_add_to_clock(b: BusV, value: u16) -> BusV {
    let (clock2, overflow) = spec_clock_advance(b.clock, value);
    BusV {
        clock: clock2,
        ifl: if overflow {
            InterruptFlag { timer: true, ..b.ifl }
        } else {
            b.ifl
        },
        cycles: ((b.cycles + value) % 0x1_0000_0000_0000_0000) as u64,
        ..b
    }
}

/// What a load of an address in the memory-mapped register window
/// 0xFF00..=0xFF4B returns.  Registers whose backing device is not modeled
/// fail with the faulting address.
pub open spec fn spec_io_load(b: BusV, addr: u16) -> Result<u8, EmuError> {
    if addr == 0xFF00 {
        Ok(spec_joypad_keys(b.joypad) as u8)
    } else if addr == 0xFF01 {
        Ok(b.serial.data)
    } else if addr == 0xFF02 {
        Ok(b.serial.control)
    } else if addr == 0xFF03 {
        Ok(0)
    } else if addr == 0xFF04 {
        Ok(b.clock.divider)
    } else if addr == 0xFF05 {
        Ok((b.clock.counter % 256) as u8)
    } else if addr == 0xFF06 {
        Ok(b.clock.reload)
    } else if addr == 0xFF07 {
        Ok(
            ((if b.clock.enabled {
                4int
            } else {
                0int
            }) + spec_rate_code(b.clock.mode)) as u8,
        )
    } else if 0xFF08 <= addr <= 0xFF0E {
        Ok(0)
    } else if addr == 0xFF0F {
        Ok(spec_if_data(b.ifl) as u8)
    } else if addr == 0xFF10 {
        Ok(spec_sound_sweep_load(b.sound_channel_1) as u8)
    } else if addr == 0xFF11 {
        Ok(spec_sound_duty_load(b.sound_channel_1) as u8)
    } else if addr == 0xFF12 {
        Ok(spec_sound_envelope_load(b.sound_channel_1) as u8)
    } else if addr == 0xFF13 {
        Ok(0)
    } else if addr == 0xFF14 {
        Ok(spec_sound_freq_load(b.sound_channel_1) as u8)
    } else if addr == 0xFF15 {
        Ok(0)
    } else if addr == 0xFF16 {
        Ok(spec_sound_duty_load(b.sound_channel_2) as u8)
    } else if addr == 0xFF17 {
        Ok(spec_sound_envelope_load(b.sound_channel_2) as u8)
    } else if addr == 0xFF18 {
        Ok(0)
    } else if addr == 0xFF19 {
        Ok(spec_sound_freq_load(b.sound_channel_2) as u8)
    } else if addr == 0xFF1A {
        Ok(
            if b.sound_channel_3.enable {
                1
            } else {
                0
            },
        )
    } else if addr == 0xFF1B {
        Ok((b.sound_channel_3.length % 256) as u8)
    } else if addr == 0xFF1C {
        Ok(spec_vol_code(b.sound_channel_3.volume) as u8)
    } else if addr == 0xFF1D {
        Ok(0)
    } else if addr == 0xFF1E {
        Ok(spec_sound_freq_load(b.sound_channel_3) as u8)
    } else if addr == 0xFF1F {
        Ok(0)
    } else if addr == 0xFF20 {
        Ok((b.sound_channel_4.length % 256) as u8)
    } else if addr <= 0xFF3F {
        Err(EmuError::UnmodeledLoad(addr))
    } else if addr == 0xFF40 {
        Ok(
            ((if b.gui.lcd_display {
                128int
            } else {
                0int
            }) + (if b.gui.window_tile_map == 0x9C00 {
                64int
            } else {
                0int
            }) + (if b.gui.window_display {
                32int
            } else {
                0int
            }) + (if b.gui.bg_window_tile_map == 0x8000 {
                16int
            } else {
                0int
            }) + (if b.gui.bg_tile_map == 0x9C00 {
                8int
            } else {
                0int
            }) + (if b.gui.sprite_size == 16 {
                4int
            } else {
                0int
            }) + (if b.gui.sprite_display {
                2int
            } else {
                0int
            }) + (if b.gui.bg_display {
                1int
            } else {
                0int
            })) as u8,
        )
    } else if addr == 0xFF41 {
        Ok(
            0x80u8 | (b.gui.lyc << 6) | (b.gui.mode2 << 5) | (b.gui.mode1 << 4) | (b.gui.mode0
                << 3) | (b.gui.coincidence << 2) | b.gui.mode_flag,
        )
    } else if addr == 0xFF42 {
        Ok(b.gui.scroll_y)
    } else if addr == 0xFF43 {
        Ok(b.gui.scroll_x)
    } else if addr == 0xFF44 {
        Ok(b.gui.line)
    } else if addr == 0xFF45 {
        Ok(b.gui.lyc)
    } else if addr == 0xFF46 {
        Err(EmuError::UnmodeledLoad(addr))
    } else if addr == 0xFF47 {
        Ok(
            ((b.gui.pallete_base[3] % 4) * 64 + (b.gui.pallete_base[2] % 4) * 16 + (
            b.gui.pallete_base[1] % 4) * 4 + b.gui.pallete_base[0] % 4) as u8,
        )
    } else if addr == 0xFF48 {
        Ok(
            ((b.gui.pallete_0[3] % 4) * 64 + (b.gui.pallete_0[2] % 4) * 16 + (b.gui.pallete_0[1]
                % 4) * 4 + 3) as u8,
        )
    } else if addr == 0xFF49 {
        Ok(
            ((b.gui.pallete_1[3] % 4) * 64 + (b.gui.pallete_1[2] % 4) * 16 + (b.gui.pallete_1[1]
                % 4) * 4 + 3) as u8,
        )
    } else if addr == 0xFF4A {
        Ok(b.gui.window_y)
    } else {
        Ok(b.gui.window_x)
    }
}

/// The 2-bit rate-select code for a timer rate in Hz.
pub open spec fn spec_rate_code(mode: u32) -> int {
    if mode == 262144 {
        1
    } else if mode == 65536 {
        2
    } else if mode == 16384 {
        3
    } else {
        0
    }
}

/// The timer rate, in Hz, selected by a 2-bit rate code.
pub open spec fn spec_rate_of(code: int) -> u32 {
    if code == 1 {
        262144
    } else if code == 2 {
        65536
    } else if code == 3 {
        16384
    } else {
        4096
    }
}

/// The bus state after a store into the register window 0xFF00..=0xFF4B.
/// Registers whose backing device is not modeled fail with the faulting
/// address and change nothing.
pub open spec fn spec_io_store(b: BusV, addr: u16, v: u8) -> Result<BusV, EmuError> {
    if addr <= 0xFF0F {
        spec_io_store_low(b, addr, v)
    } else if addr <= 0xFF3F {
        spec_io_store_sound(b, addr, v)
    } else {
        spec_io_store_video(b, addr, v)
    }
}

pub open spec fn sf_serial_data(b: BusV, v: u8) -> BusV {
    BusV { serial: Serial { data: v, ..b.serial }, ..b }
}

pub open spec fn sf_serial_control(b: BusV, v: u8) -> BusV {
    BusV {
        serial: Serial {
            transfer_flag: (v as int / 128) % 2 == 1,
            clock: v as int % 2 == 1,
            control: v,
            ..b.serial
        },
        ..b
    }
}

pub open spec fn sf_divider_reset(b: BusV) -> BusV {
    BusV { clock: Clock { divider: 0, ..b.clock }, ..b }
}

pub open spec fn sf_counter(b: BusV, v: u8) -> BusV {
    BusV { clock: Clock { counter: v as u16, ..b.clock }, ..b }
}

pub open spec fn sf_reload(b: BusV, v: u8) -> BusV {
    BusV { clock: Clock { reload: v, ..b.clock }, ..b }
}

pub open spec fn sf_timer_control(b: BusV, v: u8) -> BusV {
    BusV {
        clock: Clock {
            enabled: (v as int / 4) % 2 == 1,
            mode: spec_rate_of(v as int % 4),
            ..b.clock
        },
        ..b
    }
}

pub open spec fn sf_pending(b: BusV, v: u8) -> BusV {
    BusV { ifl: spec_if_of_byte(v), ..b }
}

#[verifier::opaque]
pub open spec fn spec_io_store_low(b: BusV, addr: u16, v: u8) -> Result<BusV, EmuError> {
    if addr == 0xFF01 {
        Ok(sf_serial_data(b, v))
    } else if addr == 0xFF02 {
        Ok(sf_serial_control(b, v))
    } else if addr == 0xFF03 {
        Ok(b)
    } else if addr == 0xFF04 {
        Ok(sf_divider_reset(b))
    } else if addr == 0xFF05 {
        Ok(sf_counter(b, v))
    } else if addr == 0xFF06 {
        Ok(sf_reload(b, v))
    } else if addr == 0xFF07 {
        Ok(sf_timer_control(b, v))
    } else if addr == 0xFF0F {
        Ok(sf_pending(b, v))
    } else {
        Err(EmuError::UnmodeledStore(addr))
    }
}

/// The given sound channel's state.
pub open spec fn get_ch(b: BusV, ch: int) -> Sound {
    if ch == 1 {
        b.sound_channel_1
    } else if ch == 2 {
        b.sound_channel_2
    } else if ch == 3 {
        b.sound_channel_3
    } else {
        b.sound_channel_4
    }
}

/// The bus with the given sound channel replaced.
pub open spec fn set_ch(b: BusV, ch: int, s: Sound) -> BusV {
    if ch == 1 {
        BusV { sound_channel_1: s, ..b }
    } else if ch == 2 {
        BusV { sound_channel_2: s, ..b }
    } else if ch == 3 {
        BusV { sound_channel_3: s, ..b }
    } else {
        BusV { sound_channel_4: s, ..b }
    }
}

pub open spec fn sf_ch_sweep(b: BusV, ch: int, v: u8) -> BusV {
    set_ch(b, ch, spec_sound_sweep_store(get_ch(b, ch), v))
}

pub open spec fn sf_ch_duty(b: BusV, ch: int, v: u8) -> BusV {
    set_ch(b, ch, spec_sound_duty_store(get_ch(b, ch), v))
}

pub open spec fn sf_ch_envelope(b: BusV, ch: int, v: u8) -> BusV {
    set_ch(b, ch, spec_sound_envelope_store(get_ch(b, ch), v))
}

pub open spec fn sf_ch_freq(b: BusV, ch: int, v: u8) -> BusV {
    set_ch(b, ch, spec_sound_freq_store(get_ch(b, ch), v))
}

pub open spec fn sf_wave_enable(b: BusV, v: u8) -> BusV {
    BusV { sound_channel_3: Sound { enable: (v as int / 128) % 2 == 1, ..b.sound_channel_3 }, ..b }
}

pub open spec fn sf_wave_length(b: BusV) -> BusV {
    BusV { sound_channel_3: Sound { length: 0, ..b.sound_channel_3 }, ..b }
}

pub open spec fn sf_wave_volume(b: BusV, v: u8) -> BusV {
    BusV {
        sound_channel_3: Sound { volume: spec_vol_pct((v as int / 32) % 4), ..b.sound_channel_3 },
        ..b
    }
}

pub open spec fn sf_noise_length(b: BusV) -> BusV {
    BusV { sound_channel_4: Sound { length: 0, ..b.sound_channel_4 }, ..b }
}

pub open spec fn sf_noise_poly(b: BusV, v: u8) -> BusV {
    BusV {
        sound_channel_4: Sound {
            shift_clock: (v as int / 16) as u32,
            width: ((v as int / 8) % 2) as u32,
            ratio: (v as int % 8) as u32,
            ..b.sound_channel_4
        },
        ..b
    }
}

pub open spec fn sf_noise_control(b: BusV, v: u8) -> BusV {
    BusV {
        sound_channel_4: Sound {
            initial: ((v as int / 128) % 2) as u8,
            counter: ((v as int / 64) % 2) as u8,
            ..b.sound_channel_4
        },
        ..b
    }
}

pub open spec fn sf_master_volume(b: BusV, v: u8) -> BusV {
    BusV {
        sound_channel_2: Sound {
            enable: (v as int / 128) % 2 == 1,
            volume: ((v as int / 16) % 8) as u32,
            ..b.sound_channel_2
        },
        sound_channel_1: Sound {
            enable: (v as int / 8) % 2 == 1,
            volume: (v as int % 8) as u32,
            ..b.sound_channel_1
        },
        ..b
    }
}

pub open spec fn sf_output_terminals(b: BusV, v: u8) -> BusV {
    BusV {
        sound_channel_2: Sound { output_selection: (v as int / 16) as u8, ..b.sound_channel_2 },
        sound_channel_1: Sound { output_selection: (v as int % 16) as u8, ..b.sound_channel_1 },
        ..b
    }
}

pub open spec fn sf_sound_onoff(b: BusV, v: u8) -> BusV {
    let on = (v as int / 128) % 2 == 1;
    BusV {
        sound_channel_1: Sound { enable: on, ..b.sound_channel_1 },
        sound_channel_2: Sound { enable: on, ..b.sound_channel_2 },
        sound_channel_3: Sound { enable: on, ..b.sound_channel_3 },
        sound_channel_4: Sound { enable: on, ..b.sound_channel_4 },
        ..b
    }
}

#[verifier::opaque]
pub open spec fn spec_io_store_sound(b: BusV, addr: u16, v: u8) -> Result<BusV, EmuError> {
    if addr == 0xFF10 {
        Ok(sf_ch_sweep(b, 1, v))
    } else if addr == 0xFF11 {
        Ok(sf_ch_duty(b, 1, v))
    } else if addr == 0xFF12 {
        Ok(sf_ch_envelope(b, 1, v))
    } else if addr == 0xFF14 {
        Ok(sf_ch_freq(b, 1, v))
    } else if addr == 0xFF16 {
        Ok(sf_ch_duty(b, 2, v))
    } else if addr == 0xFF17 {
        Ok(sf_ch_envelope(b, 2, v))
    } else if addr == 0xFF19 {
        Ok(sf_ch_freq(b, 2, v))
    } else if addr == 0xFF1A {
        Ok(sf_wave_enable(b, v))
    } else if addr == 0xFF1B {
        Ok(sf_wave_length(b))
    } else if addr == 0xFF1C {
        Ok(sf_wave_volume(b, v))
    } else if addr == 0xFF1E {
        Ok(sf_ch_freq(b, 3, v))
    } else if addr == 0xFF20 {
        Ok(sf_noise_length(b))
    } else if addr == 0xFF21 {
        Ok(sf_ch_envelope(b, 4, v))
    } else if addr == 0xFF22 {
        Ok(sf_noise_poly(b, v))
    } else if addr == 0xFF23 {
        Ok(sf_noise_control(b, v))
    } else if addr == 0xFF24 {
        Ok(sf_master_volume(b, v))
    } else if addr == 0xFF25 {
        Ok(sf_output_terminals(b, v))
    } else if addr == 0xFF26 {
        Ok(sf_sound_onoff(b, v))
    } else {
        Err(EmuError::UnmodeledStore(addr))
    }
}

pub open spec fn sf_lcd_control(b: BusV, v: u8) -> BusV {
    BusV {
        gui: GuiV {
            lcd_display: (v as int / 128) % 2 == 1,
            window_tile_map: if (v as int / 64) % 2 == 1 {
                0x9C00
            } else {
                0x9800
            },
            window_display: (v as int / 32) % 2 == 1,
            bg_window_tile_map: if (v as int / 16) % 2 == 1 {
                0x8000
            } else {
                0x8800
            },
            bg_tile_map: if (v as int / 8) % 2 == 1 {
                0x9C00
            } else {
                0x9800
            },
            sprite_size: if (v as int / 4) % 2 == 1 {
                16
            } else {
                8
            },
            sprite_display: (v as int / 2) % 2 == 1,
            bg_display: v as int % 2 == 1,
            ..b.gui
        },
        ..b
    }
}

pub open spec fn sf_lcd_status(b: BusV, v: u8) -> BusV {
    BusV {
        gui: GuiV {
            lyc: ((v as int / 64) % 2) as u8,
            mode2: ((v as int / 32) % 2) as u8,
            mode1: ((v as int / 16) % 2) as u8,
            mode0: ((v as int / 8) % 2) as u8,
            ..b.gui
        },
        ..b
    }
}

pub open spec fn sf_scroll_y(b: BusV, v: u8) -> BusV {
    BusV { gui: GuiV { scroll_y: v, ..b.gui }, ..b }
}

pub open spec fn sf_scroll_x(b: BusV, v: u8) -> BusV {
    BusV { gui: GuiV { scroll_x: v, ..b.gui }, ..b }
}

pub open spec fn sf_lyc(b: BusV, v: u8) -> BusV {
    BusV { gui: GuiV { lyc: v, ..b.gui }, ..b }
}

pub open spec fn sf_palette_base(b: BusV, v: u8) -> BusV {
    BusV {
        gui: GuiV {
            pallete_base: b.gui.pallete_base.update(3, ((v as int / 64) % 4) as u16).update(
                2,
                ((v as int / 16) % 4) as u16,
            ).update(1, ((v as int / 4) % 4) as u16).update(0, (v as int % 4) as u16),
            ..b.gui
        },
        ..b
    }
}

pub open spec fn sf_palette_0(b: BusV, v: u8) -> BusV {
    BusV {
        gui: GuiV {
            pallete_0: b.gui.pallete_0.update(3, ((v as int / 64) % 4) as u16).update(
                2,
                ((v as int / 16) % 4) as u16,
            ).update(1, ((v as int / 4) % 4) as u16),
            ..b.gui
        },
        ..b
    }
}

pub open spec fn sf_palette_1(b: BusV, v: u8) -> BusV {
    BusV {
        gui: GuiV {
            pallete_1: b.gui.pallete_1.update(3, ((v as int / 64) % 4) as u16).update(
                2,
                ((v as int / 16) % 4) as u16,
            ).update(1, ((v as int / 4) % 4) as u16),
            ..b.gui
        },
        ..b
    }
}

pub open spec fn sf_window_y(b: BusV, v: u8) -> BusV {
    BusV { gui: GuiV { window_y: v, ..b.gui }, ..b }
}

pub open spec fn sf_window_x(b: BusV, v: u8) -> BusV {
    BusV { gui: GuiV { window_x: v, ..b.gui }, ..b }
}

#[verifier::opaque]
pub open spec fn spec_io_store_video(b: BusV, addr: u16, v: u8) -> Result<BusV, EmuError> {
    if addr == 0xFF40 {
        Ok(sf_lcd_control(b, v))
    } else if addr == 0xFF41 {
        Ok(sf_lcd_status(b, v))
    } else if addr == 0xFF42 {
        Ok(sf_scroll_y(b, v))
    } else if addr == 0xFF43 {
        Ok(sf_scroll_x(b, v))
    } else if addr == 0xFF45 {
        Ok(sf_lyc(b, v))
    } else if addr == 0xFF47 {
        Ok(sf_palette_base(b, v))
    } else if addr == 0xFF48 {
        Ok(sf_palette_0(b, v))
    } else if addr == 0xFF49 {
        Ok(sf_palette_1(b, v))
    } else if addr == 0xFF4A {
        Ok(sf_window_y(b, v))
    } else if addr == 0xFF4B {
        Ok(sf_window_x(b, v))
    } else {
        Err(EmuError::UnmodeledStore(addr))
    }
}

/// What a load of any 16-bit address returns: each address is dispatched to
/// the one device range that claims it.  Reads of unusable ranges yield 0;
/// only register sub-addresses without a modeled device fail.
#[verifier::opaque]
pub open spec fn spec_load(b: BusV, addr: u16) -> Result<u8, EmuError> {
    if addr <= 0x7FFF {
        Ok(spec_readrom(b.mbc, addr))
    } else if addr <= 0x97FF {
        Ok(b.gui.char_data[addr - 0x8000])
    } else if addr <= 0x9BFF {
        Ok(b.gui.bg_display_data_1[addr - 0x9800])
    } else if addr <= 0x9FFF {
        Ok(b.gui.bg_display_data_2[addr - 0x9C00])
    } else if addr <= 0xBFFF {
        Ok(spec_readram(b.mbc, (addr - 0xA000) as u16))
    } else if addr <= 0xDFFF {
        Ok(b.ram[addr - 0xC000])
    } else if addr <= 0xFDFF {
        Ok(b.ram[addr - 0xE000])
    } else if addr <= 0xFE9F {
        Ok(b.gui.sprite_attrib[addr - 0xFE00])
    } else if addr <= 0xFEFF {
        Ok(0)
    } else if addr <= 0xFF4B {
        spec_io_load(b, addr)
    } else if addr <= 0xFF7F {
        Ok(0)
    } else if addr <= 0xFFFE {
        Ok(b.hram[addr - 0xFF80])
    } else {
        Ok(spec_ie_data(b.ie) as u8)
    }
}

/// The bus state after a store at any 16-bit address.  Stores into the ROM
/// windows are control writes to the bank controller (no-ops without
/// banking); stores into unusable ranges are discarded; only register
/// sub-addresses without a modeled device fail, changing nothing.
#[verifier::opaque]
pub open spec fn spec_store(b: BusV, addr: u16, v: u8) -> Result<BusV, EmuError> {
    if addr <= 0x7FFF {
        Ok(BusV { mbc: spec_writerom(b.mbc, addr, v), ..b })
    } else if addr <= 0x97FF {
        Ok(BusV { gui: GuiV { char_data: b.gui.char_data.update(addr - 0x8000, v), ..b.gui }, ..b })
    } else if addr <= 0x9BFF {
        Ok(
            BusV {
                gui: GuiV {
                    bg_display_data_1: b.gui.bg_display_data_1.update(addr - 0x9800, v),
                    ..b.gui
                },
                ..b
            },
        )
    } else if addr <= 0x9FFF {
        Ok(
            BusV {
                gui: GuiV {
                    bg_display_data_2: b.gui.bg_display_data_2.update(addr - 0x9C00, v),
                    ..b.gui
                },
                ..b
            },
        )
    } else if addr <= 0xBFFF {
        Ok(BusV { mbc: spec_writeram(b.mbc, (addr - 0xA000) as u16, v), ..b })
    } else if addr <= 0xDFFF {
        Ok(BusV { ram: b.ram.update(addr - 0xC000, v), ..b })
    } else if addr <= 0xFDFF {
        Ok(BusV { ram: b.ram.update(addr - 0xE000, v), ..b })
    } else if addr <= 0xFE9F {
        Ok(
            BusV {
                gui: GuiV {
                    sprite_attrib: b.gui.sprite_attrib.update(addr - 0xFE00, v),
                    ..b.gui
                },
                ..b
            },
        )
    } else if addr <= 0xFEFF {
        Ok(b)
    } else if addr <= 0xFF4B {
        spec_io_store(b, addr, v)
    } else if addr <= 0xFF7F {
        Ok(b)
    } else if addr <= 0xFFFE {
        Ok(BusV { hram: b.hram.update(addr - 0xFF80, v), ..b })
    } else {
        Ok(BusV { ie: spec_ie_of_byte(v), ..b })
    }
}

/// A 16-bit store decomposed into two byte stores: the most significant
/// byte at the lower address, the least significant one byte above it
/// (wrapping at the top of the address space).
pub open spec fn spec_store16(b: BusV, addr: u16, v: u16) -> Result<BusV, EmuError> {
    match spec_store(b, addr, (v as int / 256) as u8) {
        Err(e) => Err(e),
        Ok(b2) => spec_store(b2, ((addr as int + 1) % 0x10000) as u16, (v as int % 256) as u8),
    }
}

/// The bus after a 16-bit store has been attempted, whether or not it
/// succeeded: a failing byte store leaves its part unchanged, so a fault on
/// the second byte keeps the first byte's effect.
pub open spec fn spec_store16_state(b: BusV, addr: u16, v: u16) -> BusV {
    match spec_store(b, addr, (v as int / 256) as u8) {
        Err(_) => b,
        Ok(b2) => match spec_store(
            b2,
            ((addr as int + 1) % 0x10000) as u16,
            (v as int % 256) as u8,
        ) {
            Err(_) => b2,
            Ok(b3) => b3,
        },
    }
}

/// Relates a store's runtime outcome to its specified one: on success the
/// bus reaches the specified state; on failure the error matches and the
/// bus is unchanged.
pub open spec fn store_matches(
    r: Result<(), EmuError>,
    b_final: BusV,
    sr: Result<BusV, EmuError>,
    b_old: BusV,
) -> bool {
    match sr {
        Ok(b2) => r is Ok && b_final == b2,
        Err(e) => r == Err::<(), EmuError>(e) && b_final == b_old,
    }
}

fn zero_hram() -> (r: Vec<u8>)
    ensures
        r@ == Seq::new(HRAM_SIZE as nat, |i: int| 0u8),
        r@.len() == HRAM_SIZE,
{
    let mut data: Vec<u8> = Vec::new();
    let mut i: usize = 0;
    while i < HRAM_SIZE
        invariant
            i <= HRAM_SIZE,
            data@.len() == i,
            forall|j: int| 0 <= j < i ==> data@[j] == 0u8,
        decreases HRAM_SIZE - i,
    {
        data.push(0);
        i = i + 1;
    }
    proof {
        assert(data@ =~= Seq::new(HRAM_SIZE as nat, |i: int| 0u8));
    }
    data
}

impl Bus {
    pub fn new(mbc: MBC) -> (r: Bus)
        requires
            mbc_wf(mbc@),
        ensures
            r@ == spec_bus_new(mbc@),
            bus_wf(r@),
    {
        let r = Bus {
            mbc,
            clock: Clock::new(),

            sound_channel_1: Sound::new(),
            sound_channel_2: Sound::new(),
            sound_channel_3: Sound::new(),
            sound_channel_4: Sound::new(),

            gui: Gui::new(),

            ie: InterruptEnable::new(),
            ifl: InterruptFlag::new(),

            joypad: Joypad::new(),

            serial: Serial::new(),

            ram: Ram::new(),
            hram: zero_hram(),

            cycles: 0,
        };
        proof {
            assert(r@ =~= spec_bus_new(r.mbc@));
        }
        r
    }

    /// Whether some interrupt source is both enabled and pending.
    pub fn irq_ready(&self) -> (r: bool)
        ensures
            r == spec_irq_ready(self@.ie, self@.ifl),
    {
        (self.ie.v_blank && self.ifl.v_blank) || (self.ie.lcd_stat && self.ifl.lcd_stat) || (
        self.ie.timer && self.ifl.timer) || (self.ie.serial && self.ifl.serial) || (self.ie.joypad
            && self.ifl.joypad)
    }

    /// Accounts `value` elapsed machine cycles: advances the cycle counter
    /// and the timer, raising the timer's pending-interrupt bit when the
    /// event counter overflows.
    pub fn add_to_clock(&mut self, value: u16)
        ensures
            final(self)@ == spec_add_to_clock(old(self)@, value),
    {
        let overflow = self.clock.advance(value);
        if overflow {
            self.ifl.timer = true;
        }
        self.cycles = self.cycles.wrapping_add(value as u64);
        proof {
            assert(self.cycles == (old(self).cycles + value) % 0x1_0000_0000_0000_0000);
        }
    }

    #[verifier::rlimit(100)]
    fn io_load(&self, addr: u16) -> (r: Result<u8, EmuError>)
        requires
            bus_wf(self@),
            0xFF00 <= addr <= 0xFF4B,
        ensures
            r == spec_io_load(self@, addr),
    {
        proof {
            reveal(spec_io_load);
        }
        if addr == 0xFF00 {
            Ok(self.joypad.get_keys())
        } else if addr == 0xFF01 {
            Ok(self.serial.data)
        } else if addr == 0xFF02 {
            Ok(self.serial.control)
        } else if addr == 0xFF03 {
            Ok(0)
        } else if addr == 0xFF04 {
            Ok(self.clock.divider)
        } else if addr == 0xFF05 {
            Ok((self.clock.counter % 256) as u8)
        } else if addr == 0xFF06 {
            Ok(self.clock.reload)
        } else if addr == 0xFF07 {
            let status: u8 = if self.clock.enabled {
                4
            } else {
                0
            };
            let code: u8 = if self.clock.mode == 262144 {
                1
            } else if self.clock.mode == 65536 {
                2
            } else if self.clock.mode == 16384 {
                3
            } else {
                0
            };
            Ok(status + code)
        } else if addr <= 0xFF0E {
            Ok(0)
        } else if addr == 0xFF0F {
            Ok(self.ifl.get_data())
        } else if addr == 0xFF10 {
            Ok(self.sound_channel_1.sweep_load())
        } else if addr == 0xFF11 {
            Ok(self.sound_channel_1.duty_load())
        } else if addr == 0xFF12 {
            Ok(self.sound_channel_1.envelope_load())
        } else if addr == 0xFF13 {
            Ok(0)
        } else if addr == 0xFF14 {
            Ok(self.sound_channel_1.freq_load())
        } else if addr == 0xFF15 {
            Ok(0)
        } else if addr == 0xFF16 {
            Ok(self.sound_channel_2.duty_load())
        } else if addr == 0xFF17 {
            Ok(self.sound_channel_2.envelope_load())
        } else if addr == 0xFF18 {
            Ok(0)
        } else if addr == 0xFF19 {
            Ok(self.sound_channel_2.freq_load())
        } else if addr == 0xFF1A {
            Ok(
                if self.sound_channel_3.enable {
                    1
                } else {
                    0
                },
            )
        } else if addr == 0xFF1B {
            Ok((self.sound_channel_3.length % 256) as u8)
        } else if addr == 0xFF1C {
            let v = self.sound_channel_3.volume;
            Ok(
                if v == 100 {
                    1
                } else if v == 50 {
                    2
                } else if v == 25 {
                    3
                } else {
                    0
                },
            )
        } else if addr == 0xFF1D {
            Ok(0)
        } else if addr == 0xFF1E {
            Ok(self.sound_channel_3.freq_load())
        } else if addr == 0xFF1F {
            Ok(0)
        } else if addr == 0xFF20 {
            Ok((self.sound_channel_4.length % 256) as u8)
        } else if addr <= 0xFF3F {
            Err(EmuError::UnmodeledLoad(addr))
        } else if addr == 0xFF40 {
            let r: u8 = (if self.gui.lcd_display {
                128u8
            } else {
                0u8
            }) + (if self.gui.window_tile_map == 0x9C00 {
                64u8
            } else {
                0u8
            }) + (if self.gui.window_display {
                32u8
            } else {
                0u8
            }) + (if self.gui.bg_window_tile_map == 0x8000 {
                16u8
            } else {
                0u8
            }) + (if self.gui.bg_tile_map == 0x9C00 {
                8u8
            } else {
                0u8
            }) + (if self.gui.sprite_size == 16 {
                4u8
            } else {
                0u8
            }) + (if self.gui.sprite_display {
                2u8
            } else {
                0u8
            }) + (if self.gui.bg_display {
                1u8
            } else {
                0u8
            });
            Ok(r)
        } else if addr == 0xFF41 {
            Ok(
                0x80u8 | (self.gui.lyc << 6) | (self.gui.mode2 << 5) | (self.gui.mode1 << 4) | (
                self.gui.mode0 << 3) | (self.gui.coincidence << 2) | self.gui.mode_flag,
            )
        } else if addr == 0xFF42 {
            Ok(self.gui.scroll_y)
        } else if addr == 0xFF43 {
            Ok(self.gui.scroll_x)
        } else if addr == 0xFF44 {
            Ok(self.gui.line)
        } else if addr == 0xFF45 {
            Ok(self.gui.lyc)
        } else if addr == 0xFF46 {
            Err(EmuError::UnmodeledLoad(addr))
        } else if addr == 0xFF47 {
            let p3 = self.gui.pallete_base[3];
            let p2 = self.gui.pallete_base[2];
            let p1 = self.gui.pallete_base[1];
            let p0 = self.gui.pallete_base[0];
            Ok(((p3 % 4) * 64 + (p2 % 4) * 16 + (p1 % 4) * 4 + p0 % 4) as u8)
        } else if addr == 0xFF48 {
            let p3 = self.gui.pallete_0[3];
            let p2 = self.gui.pallete_0[2];
            let p1 = self.gui.pallete_0[1];
            Ok(((p3 % 4) * 64 + (p2 % 4) * 16 + (p1 % 4) * 4 + 3) as u8)
        } else if addr == 0xFF49 {
            let p3 = self.gui.pallete_1[3];
            let p2 = self.gui.pallete_1[2];
            let p1 = self.gui.pallete_1[1];
            Ok(((p3 % 4) * 64 + (p2 % 4) * 16 + (p1 % 4) * 4 + 3) as u8)
        } else if addr == 0xFF4A {
            Ok(self.gui.window_y)
        } else {
            Ok(self.gui.window_x)
        }
    }

    /// Resolves the one device that owns the address and returns its byte.
    /// Loads never fail except at register sub-addresses whose backing
    /// device is not modeled.
    pub fn load(&self, addr: u16) -> (r: Result<u8, EmuError>)
        requires
            bus_wf(self@),
        ensures
            r == spec_load(self@, addr),
    {
        proof {
            reveal(spec_load);
        }
        if addr <= 0x7FFF {
            Ok(self.mbc.readrom(addr))
        } else if addr <= 0x97FF {
            Ok(self.gui.load_char_data(addr - 0x8000))
        } else if addr <= 0x9BFF {
            Ok(self.gui.load_bg_display_data_1(addr - 0x9800))
        } else if addr <= 0x9FFF {
            Ok(self.gui.load_bg_display_data_2(addr - 0x9C00))
        } else if addr <= 0xBFFF {
            Ok(self.mbc.readram(addr - 0xA000))
        } else if addr <= 0xDFFF {
            Ok(self.ram.load(addr - 0xC000))
        } else if addr <= 0xFDFF {
            Ok(self.ram.load(addr - 0xE000))
        } else if addr <= 0xFE9F {
            Ok(self.gui.load_sprite(addr - 0xFE00))
        } else if addr <= 0xFEFF {
            Ok(0)
        } else if addr <= 0xFF4B {
            self.io_load(addr)
        } else if addr <= 0xFF7F {
            Ok(0)
        } else if addr <= 0xFFFE {
            Ok(self.hram[(addr - 0xFF80) as usize])
        } else {
            Ok(self.ie.get_data())
        }
    }

    fn io_store(&mut self, addr: u16, value: u8) -> (r: Result<(), EmuError>)
        requires
            bus_wf(old(self)@),
            0xFF00 <= addr <= 0xFF4B,
        ensures
            store_matches(r, final(self)@, spec_io_store(old(self)@, addr, value), old(self)@),
            bus_wf(final(self)@),
    {
        if addr <= 0xFF0F {
            self.io_store_low(addr, value)
        } else if addr <= 0xFF3F {
            self.io_store_sound(addr, value)
        } else {
            self.io_store_video(addr, value)
        }
    }

    fn st_serial_data(&mut self, value: u8)
        ensures
            final(self)@ == sf_serial_data(old(self)@, value),
    {
        self.serial.data = value;
    }

    fn st_serial_control(&mut self, value: u8)
        ensures
            final(self)@ == sf_serial_control(old(self)@, value),
    {
        self.serial.transfer_flag = (value / 128) % 2 == 1;
        self.serial.clock = value % 2 == 1;
        self.serial.control = value;
    }

    fn st_divider_reset(&mut self)
        ensures
            final(self)@ == sf_divider_reset(old(self)@),
    {
        self.clock.divider = 0;
    }

    fn st_counter(&mut self, value: u8)
        ensures
            final(self)@ == sf_counter(old(self)@, value),
    {
        self.clock.counter = value as u16;
    }

    fn st_reload(&mut self, value: u8)
        ensures
            final(self)@ == sf_reload(old(self)@, value),
    {
        self.clock.reload = value;
    }

    fn st_timer_control(&mut self, value: u8)
        ensures
            final(self)@ == sf_timer_control(old(self)@, value),
    {
        self.clock.enabled = (value / 4) % 2 == 1;
        let code: u8 = value % 4;
        self.clock.mode = if code == 1 {
            262144
        } else if code == 2 {
            65536
        } else if code == 3 {
            16384
        } else {
            4096
        };
    }

    fn st_pending(&mut self, value: u8)
        ensures
            final(self)@ == sf_pending(old(self)@, value),
    {
        self.ifl.set_data(value);
    }

    fn io_store_low(&mut self, addr: u16, value: u8) -> (r: Result<(), EmuError>)
        requires
            bus_wf(old(self)@),
            0xFF00 <= addr <= 0xFF0F,
        ensures
            store_matches(r, final(self)@, spec_io_store_low(old(self)@, addr, value), old(self)@),
            bus_wf(final(self)@),
    {
        proof {
            reveal(spec_io_store_low);
        }
        if addr == 0xFF01 {
            self.st_serial_data(value);
            Ok(())
        } else if addr == 0xFF02 {
            self.st_serial_control(value);
            Ok(())
        } else if addr == 0xFF03 {
            Ok(())
        } else if addr == 0xFF04 {
            self.st_divider_reset();
            Ok(())
        } else if addr == 0xFF05 {
            self.st_counter(value);
            Ok(())
        } else if addr == 0xFF06 {
            self.st_reload(value);
            Ok(())
        } else if addr == 0xFF07 {
            self.st_timer_control(value);
            Ok(())
        } else if addr == 0xFF0F {
            self.st_pending(value);
            Ok(())
        } else {
            Err(EmuError::UnmodeledStore(addr))
        }
    }

    fn st_ch_sweep(&mut self, ch: u8, value: u8)
        requires
            1 <= ch <= 4,
        ensures
            final(self)@ == sf_ch_sweep(old(self)@, ch as int, value),
    {
        if ch == 1 {
            self.sound_channel_1.sweep_store(value);
        } else if ch == 2 {
            self.sound_channel_2.sweep_store(value);
        } else if ch == 3 {
            self.sound_channel_3.sweep_store(value);
        } else {
            self.sound_channel_4.sweep_store(value);
        }
    }

    fn st_ch_duty(&mut self, ch: u8, value: u8)
        requires
            1 <= ch <= 4,
        ensures
            final(self)@ == sf_ch_duty(old(self)@, ch as int, value),
    {
        if ch == 1 {
            self.sound_channel_1.duty_store(value);
        } else if ch == 2 {
            self.sound_channel_2.duty_store(value);
        } else if ch == 3 {
            self.sound_channel_3.duty_store(value);
        } else {
            self.sound_channel_4.duty_store(value);
        }
    }

    fn st_ch_envelope(&mut self, ch: u8, value: u8)
        requires
            1 <= ch <= 4,
        ensures
            final(self)@ == sf_ch_envelope(old(self)@, ch as int, value),
    {
        if ch == 1 {
            self.sound_channel_1.envelope_store(value);
        } else if ch == 2 {
            self.sound_channel_2.envelope_store(value);
        } else if ch == 3 {
            self.sound_channel_3.envelope_store(value);
        } else {
            self.sound_channel_4.envelope_store(value);
        }
    }

    fn st_ch_freq(&mut self, ch: u8, value: u8)
        requires
            1 <= ch <= 4,
        ensures
            final(self)@ == sf_ch_freq(old(self)@, ch as int, value),
    {
        if ch == 1 {
            self.sound_channel_1.freq_store(value);
        } else if ch == 2 {
            self.sound_channel_2.freq_store(value);
        } else if ch == 3 {
            self.sound_channel_3.freq_store(value);
        } else {
            self.sound_channel_4.freq_store(value);
        }
    }

    fn st_wave_enable(&mut self, value: u8)
        ensures
            final(self)@ == sf_wave_enable(old(self)@, value),
    {
        self.sound_channel_3.enable = (value / 128) % 2 == 1;
    }

    fn st_wave_length(&mut self)
        ensures
            final(self)@ == sf_wave_length(old(self)@),
    {
        self.sound_channel_3.length = 0;
    }

    fn st_wave_volume(&mut self, value: u8)
        ensures
            final(self)@ == sf_wave_volume(old(self)@, value),
    {
        let code: u8 = (value / 32) % 4;
        self.sound_channel_3.volume = if code == 1 {
            100
        } else if code == 2 {
            50
        } else if code == 3 {
            25
        } else {
            0
        };
    }

    fn st_noise_length(&mut self)
        ensures
            final(self)@ == sf_noise_length(old(self)@),
    {
        self.sound_channel_4.length = 0;
    }

    fn st_noise_poly(&mut self, value: u8)
        ensures
            final(self)@ == sf_noise_poly(old(self)@, value),
    {
        self.sound_channel_4.shift_clock = (value / 16) as u32;
        self.sound_channel_4.width = ((value / 8) % 2) as u32;
        self.sound_channel_4.ratio = (value % 8) as u32;
    }

    fn st_noise_control(&mut self, value: u8)
        ensures
            final(self)@ == sf_noise_control(old(self)@, value),
    {
        self.sound_channel_4.initial = (value / 128) % 2;
        self.sound_channel_4.counter = (value / 64) % 2;
    }

    fn st_master_volume(&mut self, value: u8)
        ensures
            final(self)@ == sf_master_volume(old(self)@, value),
    {
        self.sound_channel_2.enable = (value / 128) % 2 == 1;
        self.sound_channel_2.volume = ((value / 16) % 8) as u32;
        self.sound_channel_1.enable = (value / 8) % 2 == 1;
        self.sound_channel_1.volume = (value % 8) as u32;
    }

    fn st_output_terminals(&mut self, value: u8)
        ensures
            final(self)@ == sf_output_terminals(old(self)@, value),
    {
        self.sound_channel_2.output_selection = value / 16;
        self.sound_channel_1.output_selection = value % 16;
    }

    fn st_sound_onoff(&mut self, value: u8)
        ensures
            final(self)@ == sf_sound_onoff(old(self)@, value),
    {
        let all = (value / 128) % 2 == 1;
        self.sound_channel_1.enable = all;
        self.sound_channel_2.enable = all;
        self.sound_channel_3.enable = all;
        self.sound_channel_4.enable = all;
    }

    fn io_store_sound(&mut self, addr: u16, value: u8) -> (r: Result<(), EmuError>)
        requires
            bus_wf(old(self)@),
            0xFF10 <= addr <= 0xFF3F,
        ensures
            store_matches(r, final(self)@, spec_io_store_sound(old(self)@, addr, value), old(self)@),
            bus_wf(final(self)@),
    {
        proof {
            reveal(spec_io_store_sound);
        }
        if addr == 0xFF10 {
            self.st_ch_sweep(1, value);
            Ok(())
        } else if addr == 0xFF11 {
            self.st_ch_duty(1, value);
            Ok(())
        } else if addr == 0xFF12 {
            self.st_ch_envelope(1, value);
            Ok(())
        } else if addr == 0xFF14 {
            self.st_ch_freq(1, value);
            Ok(())
        } else if addr == 0xFF16 {
            self.st_ch_duty(2, value);
            Ok(())
        } else if addr == 0xFF17 {
            self.st_ch_envelope(2, value);
            Ok(())
        } else if addr == 0xFF19 {
            self.st_ch_freq(2, value);
            Ok(())
        } else if addr == 0xFF1A {
            self.st_wave_enable(value);
            Ok(())
        } else if addr == 0xFF1B {
            self.st_wave_length();
            Ok(())
        } else if addr == 0xFF1C {
            self.st_wave_volume(value);
            Ok(())
        } else if addr == 0xFF1E {
            self.st_ch_freq(3, value);
            Ok(())
        } else if addr == 0xFF20 {
            self.st_noise_length();
            Ok(())
        } else if addr == 0xFF21 {
            self.st_ch_envelope(4, value);
            Ok(())
        } else if addr == 0xFF22 {
            self.st_noise_poly(value);
            Ok(())
        } else if addr == 0xFF23 {
            self.st_noise_control(value);
            Ok(())
        } else if addr == 0xFF24 {
            self.st_master_volume(value);
            Ok(())
        } else if addr == 0xFF25 {
            self.st_output_terminals(value);
            Ok(())
        } else if addr == 0xFF26 {
            self.st_sound_onoff(value);
            Ok(())
        } else {
            Err(EmuError::UnmodeledStore(addr))
        }
    }

    fn st_lcd_control(&mut self, value: u8)
        ensures
            final(self)@ == sf_lcd_control(old(self)@, value),
    {
        self.gui.lcd_display = (value / 128) % 2 == 1;
        self.gui.window_tile_map = if (value / 64) % 2 == 1 {
            0x9C00
        } else {
            0x9800
        };
        self.gui.window_display = (value / 32) % 2 == 1;
        self.gui.bg_window_tile_map = if (value / 16) % 2 == 1 {
            0x8000
        } else {
            0x8800
        };
        self.gui.bg_tile_map = if (value / 8) % 2 == 1 {
            0x9C00
        } else {
            0x9800
        };
        self.gui.sprite_size = if (value / 4) % 2 == 1 {
            16
        } else {
            8
        };
        self.gui.sprite_display = (value / 2) % 2 == 1;
        self.gui.bg_display = value % 2 == 1;
    }

    fn st_lcd_status(&mut self, value: u8)
        ensures
            final(self)@ == sf_lcd_status(old(self)@, value),
    {
        self.gui.lyc = (value / 64) % 2;
        self.gui.mode2 = (value / 32) % 2;
        self.gui.mode1 = (value / 16) % 2;
        self.gui.mode0 = (value / 8) % 2;
    }

    fn st_palette_base(&mut self, value: u8)
        requires
            bus_wf(old(self)@),
        ensures
            final(self)@ == sf_palette_base(old(self)@, value),
    {
        self.gui.pallete_base.set(3, ((value / 64) % 4) as u16);
        self.gui.pallete_base.set(2, ((value / 16) % 4) as u16);
        self.gui.pallete_base.set(1, ((value / 4) % 4) as u16);
        self.gui.pallete_base.set(0, (value % 4) as u16);
    }

    fn st_palette_0(&mut self, value: u8)
        requires
            bus_wf(old(self)@),
        ensures
            final(self)@ == sf_palette_0(old(self)@, value),
    {
        self.gui.pallete_0.set(3, ((value / 64) % 4) as u16);
        self.gui.pallete_0.set(2, ((value / 16) % 4) as u16);
        self.gui.pallete_0.set(1, ((value / 4) % 4) as u16);
    }

    fn st_palette_1(&mut self, value: u8)
        requires
            bus_wf(old(self)@),
        ensures
            final(self)@ == sf_palette_1(old(self)@, value),
    {
        self.gui.pallete_1.set(3, ((value / 64) % 4) as u16);
        self.gui.pallete_1.set(2, ((value / 16) % 4) as u16);
        self.gui.pallete_1.set(1, ((value / 4) % 4) as u16);
    }

    fn io_store_video(&mut self, addr: u16, value: u8) -> (r: Result<(), EmuError>)
        requires
            bus_wf(old(self)@),
            0xFF40 <= addr <= 0xFF4B,
        ensures
            store_matches(r, final(self)@, spec_io_store_video(old(self)@, addr, value), old(self)@),
            bus_wf(final(self)@),
    {
        proof {
            reveal(spec_io_store_video);
        }
        if addr == 0xFF40 {
            self.st_lcd_control(value);
            Ok(())
        } else if addr == 0xFF41 {
            self.st_lcd_status(value);
            Ok(())
        } else if addr == 0xFF42 {
            self.gui.scroll_y = value;
            Ok(())
        } else if addr == 0xFF43 {
            self.gui.scroll_x = value;
            Ok(())
        } else if addr == 0xFF45 {
            self.gui.lyc = value;
            Ok(())
        } else if addr == 0xFF47 {
            self.st_palette_base(value);
            Ok(())
        } else if addr == 0xFF48 {
            self.st_palette_0(value);
            Ok(())
        } else if addr == 0xFF49 {
            self.st_palette_1(value);
            Ok(())
        } else if addr == 0xFF4A {
            self.gui.window_y = value;
            Ok(())
        } else if addr == 0xFF4B {
            self.gui.window_x = value;
            Ok(())
        } else {
            Err(EmuError::UnmodeledStore(addr))
        }
    }

    /// Resolves the one device that owns the address and hands it the byte.
    /// A failing store changes nothing.
    pub fn store(&mut self, addr: u16, value: u8) -> (r: Result<(), EmuError>)
        requires
            bus_wf(old(self)@),
        ensures
            store_matches(r, final(self)@, spec_store(old(self)@, addr, value), old(self)@),
            bus_wf(final(self)@),
    {
        proof {
            reveal(spec_store);
        }
        if addr <= 0x7FFF {
            self.mbc.writerom(addr, value);
            Ok(())
        } else if addr <= 0x97FF {
            self.gui.store_char_data(addr - 0x8000, value);
            Ok(())
        } else if addr <= 0x9BFF {
            self.gui.store_bg_display_data_1(addr - 0x9800, value);
            Ok(())
        } else if addr <= 0x9FFF {
            self.gui.store_bg_display_data_2(addr - 0x9C00, value);
            Ok(())
        } else if addr <= 0xBFFF {
            self.mbc.writeram(addr - 0xA000, value);
            Ok(())
        } else if addr <= 0xDFFF {
            self.ram.store(addr - 0xC000, value);
            Ok(())
        } else if addr <= 0xFDFF {
            self.ram.store(addr - 0xE000, value);
            Ok(())
        } else if addr <= 0xFE9F {
            self.gui.store_sprite(addr - 0xFE00, value);
            Ok(())
        } else if addr <= 0xFEFF {
            Ok(())
        } else if addr <= 0xFF4B {
            self.io_store(addr, value)
        } else if addr <= 0xFF7F {
            Ok(())
        } else if addr <= 0xFFFE {
            let idx: usize = (addr - 0xFF80) as usize;
            self.hram.set(idx, value);
            Ok(())
        } else {
            self.ie.set_data(value);
            Ok(())
        }
    }

    /// Stores a 16-bit value as two bytes, the most significant one at the
    /// lower address.
    #[verifier::rlimit(100)]
    pub fn store16(&mut self, addr: u16, value: u16) -> (r: Result<(), EmuError>)
        requires
            bus_wf(old(self)@),
        ensures
            final(self)@ == spec_store16_state(old(self)@, addr, value),
            spec_store16(old(self)@, addr, value) matches Ok(b2) ==> r is Ok && final(self)@ == b2,
            spec_store16(old(self)@, addr, value) matches Err(e) ==> r == Err::<(), EmuError>(e),
            bus_wf(final(self)@),
    {
        match self.store(addr, (value / 256) as u8) {
            Err(e) => Err(e),
            Ok(_) => self.store(addr.wrapping_add(1), (value % 256) as u8),
        }
    }
}

/// 16-bit store/load round trip at a writable working-RAM address: after
/// storing a 16-bit value, loading the address yields its high byte and the
/// next address its low byte.
#[verifier::rlimit(100)]
pub proof fn lemma_store16_roundtrip(b: BusV, addr: u16, v: u16)
    requires
        bus_wf(b),
        0xC000 <= addr,
        addr + 1 <= 0xDFFF,
    ensures
        spec_store16(b, addr, v) is Ok,
        spec_load(spec_store16(b, addr, v)->Ok_0, addr) == Ok::<u8, EmuError>(
            ((v as int / 256) as u8),
        ),
        spec_load(spec_store16(b, addr, v)->Ok_0, (addr + 1) as u16) == Ok::<u8, EmuError>(
            ((v as int % 256) as u8),
        ),
{
    reveal(spec_load);
    reveal(spec_store);
}

} // verus!
