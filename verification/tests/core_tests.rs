use gbcore::bus::{Bus, Range};
use gbcore::interrupt::{InterruptEnable, InterruptFlag};
use gbcore::joypad::Joypad;
use gbcore::mbc::{CartridgeError, MBC, MBC0, check_checksum, get_mbc, ram_size, rom_size};
use gbcore::ram::Ram;
use gbcore::register::Register;
use gbcore::rom::Rom;

fn image(kind: u8, len: usize) -> Vec<u8> {
    image_with_ram(kind, 0, len)
}

fn image_with_ram(kind: u8, ram_code: u8, len: usize) -> Vec<u8> {
    let mut data = vec![0u8; len];
    data[0x0147] = kind;
    data[0x0149] = ram_code;
    let mut value: u8 = 0;
    for i in 0x134..0x14D {
        value = value.wrapping_sub(data[i]).wrapping_sub(1);
    }
    data[0x14D] = value;
    data
}

fn bus_with(kind: u8, len: usize) -> Bus {
    Bus::new(get_mbc(image(kind, len)).unwrap())
}

#[test]
fn register_pair_roundtrip() {
    let mut r = Register::new();
    r.set_bc(0xABCD);
    assert_eq!(r.bc(), 0xABCD);
    r.set_de(0x1234);
    assert_eq!(r.de(), 0x1234);
    r.set_hl(0xFFFF);
    assert_eq!(r.hl(), 0xFFFF);
    r.set_af(0x12FF);
    assert_eq!(r.af(), 0x12F0);
    assert_eq!(r.f & 0x0F, 0);
}

#[test]
fn range_contains_offsets() {
    let io = Range(0xFF00, 0xFF4B);
    assert_eq!(io.contains(0xFF07), Some(0x07));
    assert_eq!(io.contains(0xFEFF), None);
    assert_eq!(io.contains(0xFF4C), None);
    let rom = Range(0x0000, 0x3FFF);
    assert_eq!(rom.contains(0x0000), Some(0));
    assert_eq!(rom.contains(0x3FFF), Some(0x3FFF));
}

#[test]
fn checksum_accepts_and_rejects() {
    let good = image(0, 0x8000);
    assert!(check_checksum(&good).is_ok());
    let mut bad = good.clone();
    bad[0x14D] = bad[0x14D].wrapping_add(1);
    assert_eq!(check_checksum(&bad), Err(CartridgeError::InvalidChecksum));
    assert!(get_mbc(bad).is_err());
    assert!(get_mbc(good).is_ok());
}

#[test]
fn loader_rejects_short_and_unsupported() {
    assert!(matches!(get_mbc(vec![0u8; 0x100]), Err(CartridgeError::ImageTooSmall)));
    assert!(matches!(get_mbc(vec![0u8; 0x14D]), Err(CartridgeError::ImageTooSmall)));
    assert!(matches!(get_mbc(image(0x19, 0x8000)), Err(CartridgeError::UnsupportedType)));
}

#[test]
fn loader_accepts_the_least_image_that_holds_the_header() {
    // 0x14E bytes reach the checksum byte at 0x14D and nothing more
    assert!(get_mbc(image(0, 0x14E)).is_ok());
    assert!(get_mbc(image(1, 0x14E)).is_ok());
}

#[test]
fn rom_and_ram_sizes() {
    assert_eq!(ram_size(2), 8 * 1024);
    assert_eq!(ram_size(4), 128 * 1024);
    assert_eq!(ram_size(9), 0);
    assert_eq!(rom_size(0), 32 * 1024);
    assert_eq!(rom_size(6), 2 * 1024 * 1024);
}

#[test]
fn mbc0_reads_image_and_ignores_writes() {
    let mut data = image(0, 0x8000);
    data[0x1000] = 0x42;
    let mut mbc = get_mbc(data).unwrap();
    assert_eq!(mbc.readrom(0x1000), 0x42);
    mbc.writerom(0x1000, 0x99);
    assert_eq!(mbc.readrom(0x1000), 0x42);
    assert_eq!(mbc.readram(0x0000), 0);
    mbc.writeram(0x0000, 7);
    assert_eq!(mbc.readram(0x0000), 0);
}

#[test]
fn mbc1_bank_switching() {
    let mut data = image(1, 0x10000);
    data[0x4000] = 0x11;
    data[0x8000] = 0x22;
    data[0xC000] = 0x33;
    let mut mbc = get_mbc(data).unwrap();
    // the selected bank starts at 1
    assert_eq!(mbc.readrom(0x4000), 0x11);
    mbc.writerom(0x2000, 2);
    assert_eq!(mbc.readrom(0x4000), 0x22);
    mbc.writerom(0x2000, 3);
    assert_eq!(mbc.readrom(0x4000), 0x33);
    // bank 0 is never selectable through the window
    mbc.writerom(0x2000, 0);
    assert_eq!(mbc.readrom(0x4000), 0x11);
    // the fixed window always reads bank 0
    assert_eq!(mbc.readrom(0x0000), 0);
}

#[test]
fn mbc1_ram_gate() {
    let mut mbc = get_mbc(image_with_ram(2, 2, 0x8000)).unwrap();
    // disabled RAM reads 0 and drops writes
    mbc.writeram(0x10, 5);
    assert_eq!(mbc.readram(0x10), 0);
    mbc.writerom(0x0000, 0x0A);
    mbc.writeram(0x10, 5);
    assert_eq!(mbc.readram(0x10), 5);
    mbc.writerom(0x0000, 0x00);
    assert_eq!(mbc.readram(0x10), 0);
}

#[test]
fn bus_store16_roundtrip_in_work_ram() {
    let mut bus = bus_with(0, 0x8000);
    bus.store16(0xC123, 0x1234).unwrap();
    assert_eq!(bus.load(0xC123), Ok(0x12));
    assert_eq!(bus.load(0xC124), Ok(0x34));
}

#[test]
fn bus_echo_mirrors_work_ram() {
    let mut bus = bus_with(0, 0x8000);
    bus.store(0xC050, 0x5A).unwrap();
    assert_eq!(bus.load(0xE050), Ok(0x5A));
    bus.store(0xE051, 0xA5).unwrap();
    assert_eq!(bus.load(0xC051), Ok(0xA5));
}

#[test]
fn bus_high_ram_and_unusable() {
    let mut bus = bus_with(0, 0x8000);
    bus.store(0xFF80, 0x77).unwrap();
    assert_eq!(bus.load(0xFF80), Ok(0x77));
    assert_eq!(bus.load(0xFEA0), Ok(0));
    assert_eq!(bus.load(0xFF4C), Ok(0));
    bus.store(0xFEA0, 0x11).unwrap();
    assert_eq!(bus.load(0xFEA0), Ok(0));
}

#[test]
fn bus_video_memories() {
    let mut bus = bus_with(0, 0x8000);
    bus.store(0x8000, 1).unwrap();
    bus.store(0x9800, 2).unwrap();
    bus.store(0x9C00, 3).unwrap();
    bus.store(0xFE00, 4).unwrap();
    assert_eq!(bus.load(0x8000), Ok(1));
    assert_eq!(bus.load(0x9800), Ok(2));
    assert_eq!(bus.load(0x9C00), Ok(3));
    assert_eq!(bus.load(0xFE00), Ok(4));
}

#[test]
fn bus_rom_store_is_control_write_only() {
    let mut data = image(0, 0x8000);
    data[0x0200] = 0x5C;
    let mut bus = Bus::new(get_mbc(data).unwrap());
    bus.store(0x0200, 0x99).unwrap();
    assert_eq!(bus.load(0x0200), Ok(0x5C));
}

#[test]
fn bus_unmodeled_register_faults() {
    let mut bus = bus_with(0, 0x8000);
    assert_eq!(bus.load(0xFF46), Err(gbcore::EmuError::UnmodeledLoad(0xFF46)));
    assert_eq!(bus.load(0xFF30), Err(gbcore::EmuError::UnmodeledLoad(0xFF30)));
    assert_eq!(bus.store(0xFF44, 1), Err(gbcore::EmuError::UnmodeledStore(0xFF44)));
    assert_eq!(bus.store(0xFF00, 1), Err(gbcore::EmuError::UnmodeledStore(0xFF00)));
}

#[test]
fn timer_counts_at_selected_rate() {
    let mut bus = bus_with(0, 0x8000);
    // bit 2 enables, rate code 3 selects 16384 Hz (one tick per 256 cycles)
    bus.store(0xFF07, 0b111).unwrap();
    assert_eq!(bus.load(0xFF07), Ok(0b111));
    bus.add_to_clock(0x0204);
    assert_eq!(bus.load(0xFF05), Ok(2));
    assert_eq!(bus.clock.counter, 2);
    // partial periods accumulate
    bus.add_to_clock(0xFC);
    assert_eq!(bus.clock.counter, 3);
}

#[test]
fn timer_overflow_raises_pending_bit() {
    let mut bus = bus_with(0, 0x8000);
    bus.store(0xFF07, 0b111).unwrap();
    let before = bus.load(0xFF0F).unwrap();
    assert_eq!(before & 0b100, 0);
    for _ in 0..300 {
        bus.add_to_clock(0xFFFF);
    }
    let after = bus.load(0xFF0F).unwrap();
    assert_eq!(after & 0b100, 0b100);
}

#[test]
fn divider_runs_and_resets() {
    let mut bus = bus_with(0, 0x8000);
    bus.add_to_clock(300);
    assert_eq!(bus.load(0xFF04), Ok((300 % 256) as u8));
    bus.store(0xFF04, 0xAB).unwrap();
    assert_eq!(bus.load(0xFF04), Ok(0));
}

#[test]
fn interrupt_latch_bytes() {
    let mut bus = bus_with(0, 0x8000);
    bus.store(0xFFFF, 0x1F).unwrap();
    assert_eq!(bus.load(0xFFFF), Ok(0x1F));
    bus.store(0xFF0F, 0b10101).unwrap();
    assert_eq!(bus.load(0xFF0F), Ok(0b10101));
    let ie = InterruptEnable::new();
    assert_eq!(ie.get_data(), 0);
    let ifl = InterruptFlag::new();
    assert_eq!(ifl.get_data(), 1);
}

#[test]
fn lcd_control_roundtrip_and_decode() {
    let mut bus = bus_with(0, 0x8000);
    bus.store(0xFF40, 0x91).unwrap();
    assert_eq!(bus.load(0xFF40), Ok(0x91));
    assert!(bus.gui.lcd_display);
    assert!(bus.gui.bg_display);
    assert!(!bus.gui.sprite_display);
}

#[test]
fn scroll_palette_window_registers() {
    let mut bus = bus_with(0, 0x8000);
    bus.store(0xFF42, 17).unwrap();
    bus.store(0xFF43, 23).unwrap();
    bus.store(0xFF47, 0xE4).unwrap();
    bus.store(0xFF4A, 80).unwrap();
    bus.store(0xFF4B, 7).unwrap();
    assert_eq!(bus.load(0xFF42), Ok(17));
    assert_eq!(bus.load(0xFF43), Ok(23));
    assert_eq!(bus.load(0xFF47), Ok(0xE4));
    assert_eq!(bus.load(0xFF4A), Ok(80));
    assert_eq!(bus.load(0xFF4B), Ok(7));
}

#[test]
fn sound_sweep_register_roundtrip() {
    let mut bus = bus_with(0, 0x8000);
    bus.store(0xFF10, 0x77).unwrap();
    assert_eq!(bus.load(0xFF10), Ok(0x77));
    // sweep time decodes to tenths of a millisecond
    assert_eq!(bus.sound_channel_1.sweep_time, 547);
    assert_eq!(bus.sound_channel_1.shift, 7);
}

#[test]
fn sound_envelope_register_keeps_volume_bits() {
    let mut bus = bus_with(0, 0x8000);
    bus.store(0xFF12, 0xF3).unwrap();
    assert_eq!(bus.sound_channel_1.initial_volume, 15);
    // only bit 2 of the sweep count is decoded, so 0xF3 reads back as 0xF0
    assert_eq!(bus.load(0xFF12), Ok(0xF0));
}

#[test]
fn sound_master_switch() {
    let mut bus = bus_with(0, 0x8000);
    bus.store(0xFF26, 0x80).unwrap();
    assert!(bus.sound_channel_1.enable);
    assert!(bus.sound_channel_4.enable);
    bus.store(0xFF26, 0x00).unwrap();
    assert!(!bus.sound_channel_2.enable);
}

#[test]
fn serial_and_joypad_registers() {
    let mut bus = bus_with(0, 0x8000);
    bus.store(0xFF01, 0x5A).unwrap();
    bus.store(0xFF02, 0x81).unwrap();
    assert_eq!(bus.load(0xFF01), Ok(0x5A));
    assert_eq!(bus.load(0xFF02), Ok(0x81));
    assert!(bus.serial.transfer_flag);
    assert!(bus.serial.clock);
    // all keys released, action group selected
    assert_eq!(bus.load(0xFF00), Ok(0x0F));
    assert_eq!(Joypad::new().get_keys(), 0x0F);
}

#[test]
fn ram_and_rom_blocks() {
    let mut ram = Ram::new();
    ram.store(0x123, 9);
    assert_eq!(ram.load(0x123), 9);
    assert_eq!(ram.load(0x124), 0);
    let mut rom = Rom::new(vec![1, 2, 3]);
    assert_eq!(rom.load(1), 2);
    rom.store(1, 9);
    assert_eq!(rom.load(1), 9);
}

#[test]
fn mbc1_ram_banking_mode() {
    let mut mbc = get_mbc(image_with_ram(2, 2, 0x8000)).unwrap();
    match &mut mbc {
        MBC::MBC1(_) => {},
        MBC::MBC0(_) => panic!("wrong controller kind"),
    }
    mbc.writerom(0x0000, 0x0A);
    mbc.writerom(0x6000, 0x01);
    mbc.writerom(0x4000, 1);
    // bank 1 of an 8 KiB allocation lies past the end: reads yield 0
    mbc.writeram(0x0, 9);
    assert_eq!(mbc.readram(0x0), 0);
    mbc.writerom(0x4000, 0);
    mbc.writeram(0x0, 9);
    assert_eq!(mbc.readram(0x0), 9);
    let _ = MBC0::new(vec![0u8; 4]);
}
