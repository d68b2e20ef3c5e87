use gbcore::EmuError;
use gbcore::bus::Bus;
use gbcore::command::{Command, parse_command, resolve_command};
use gbcore::cpu::Cpu;
use gbcore::debugger::Debugger;
use gbcore::mbc::get_mbc;

fn image(kind: u8, len: usize) -> Vec<u8> {
    let mut data = vec![0u8; len];
    data[0x0147] = kind;
    let mut value: u8 = 0;
    for i in 0x134..0x14D {
        value = value.wrapping_sub(data[i]).wrapping_sub(1);
    }
    data[0x14D] = value;
    data
}

fn cpu_with_program(program: &[u8]) -> Cpu {
    let mut data = image(0, 0x8000);
    for (i, b) in program.iter().enumerate() {
        data[0x0100 + i] = *b;
    }
    Cpu::new(Bus::new(get_mbc(data).unwrap()))
}

#[test]
fn nop_then_jump_reaches_target_with_documented_cycles() {
    // a no-op, then an absolute jump to 0x0150
    let mut cpu = cpu_with_program(&[0x00, 0xC3, 0x50, 0x01]);
    cpu.run_next_instruction().unwrap();
    assert_eq!(cpu.pc, 0x0101);
    cpu.run_next_instruction().unwrap();
    assert_eq!(cpu.pc, 0x0150);
    assert_eq!(cpu.get_pc(), 0x0101);
    // the two opcodes' documented costs: 4 and 16
    assert_eq!(cpu.bus.cycles, 20);
}

#[test]
fn stack_roundtrip_in_work_ram() {
    let mut cpu = cpu_with_program(&[0x00]);
    cpu.sp = 0xD000;
    cpu.push_stack(0xBEEF).unwrap();
    assert_eq!(cpu.sp, 0xCFFE);
    let v = cpu.pop_stack().unwrap();
    assert_eq!(v, 0xBEEF);
    assert_eq!(cpu.sp, 0xD000);
    // the pushed 16-bit value lies most significant byte first
    assert_eq!(cpu.bus.load(0xCFFE), Ok(0xBE));
    assert_eq!(cpu.bus.load(0xCFFF), Ok(0xEF));
}

#[test]
fn lcd_control_write_readback_through_core() {
    let mut cpu = cpu_with_program(&[0x00]);
    cpu.bus.store(0xFF40, 0x91).unwrap();
    assert_eq!(cpu.bus.load(0xFF40), Ok(0x91));
    assert!(cpu.bus.gui.lcd_display);
    assert!(cpu.bus.gui.bg_display);
}

#[test]
fn power_up_seeds_registers() {
    let mut cpu = cpu_with_program(&[0x00]);
    cpu.power_up();
    assert_eq!(cpu.register.af(), 0x01B0);
    assert_eq!(cpu.register.bc(), 0x0013);
    assert_eq!(cpu.register.de(), 0x00D8);
    assert_eq!(cpu.register.hl(), 0x014D);
    assert_eq!(cpu.sp, 0xFFFE);
    assert_eq!(cpu.bus.load(0xFF40), Ok(0x91));
    assert_eq!(cpu.bus.load(0xFF47), Ok(0xFC));
    assert_eq!(cpu.bus.load(0xFFFF), Ok(0x00));
}

#[test]
fn unknown_opcode_is_fatal_with_address() {
    let mut cpu = cpu_with_program(&[0xD3]);
    assert_eq!(cpu.run_next_instruction(), Err(EmuError::UnknownOpcode(0xD3, 0x0100)));
}

#[test]
fn unknown_extended_opcode_is_fatal() {
    let mut cpu = cpu_with_program(&[0xCB, 0x00]);
    assert_eq!(cpu.run_next_instruction(), Err(EmuError::UnknownExtOpcode(0x00, 0x0101)));
}

#[test]
fn load_immediate_and_alu_flags() {
    // LD A,0x0F; ADD A,0x01: half-carry from bit 3, no carry, not zero
    let mut cpu = cpu_with_program(&[0x3E, 0x0F, 0xC6, 0x01]);
    cpu.run_next_instruction().unwrap();
    assert_eq!(cpu.register.a, 0x0F);
    assert_eq!(cpu.pc, 0x0102);
    cpu.run_next_instruction().unwrap();
    assert_eq!(cpu.register.a, 0x10);
    assert_eq!(cpu.register.flag.z, 0);
    assert_eq!(cpu.register.flag.n, 0);
    assert_eq!(cpu.register.flag.h, 1);
    assert_eq!(cpu.register.flag.c, 0);
    assert_eq!(cpu.register.f, 0x20);
}

#[test]
fn add_wraps_and_sets_zero_and_carry() {
    // LD A,0xFF; ADD A,0x01
    let mut cpu = cpu_with_program(&[0x3E, 0xFF, 0xC6, 0x01]);
    cpu.run_next_instruction().unwrap();
    cpu.run_next_instruction().unwrap();
    assert_eq!(cpu.register.a, 0x00);
    assert_eq!(cpu.register.flag.z, 1);
    assert_eq!(cpu.register.flag.h, 1);
    assert_eq!(cpu.register.flag.c, 1);
}

#[test]
fn subtract_borrow_flags() {
    // LD A,0x10; SUB 0x20: borrow out of bit 7, no half-borrow
    let mut cpu = cpu_with_program(&[0x3E, 0x10, 0xD6, 0x20]);
    cpu.run_next_instruction().unwrap();
    cpu.run_next_instruction().unwrap();
    assert_eq!(cpu.register.a, 0xF0);
    assert_eq!(cpu.register.flag.n, 1);
    assert_eq!(cpu.register.flag.h, 0);
    assert_eq!(cpu.register.flag.c, 1);
}

#[test]
fn compare_sets_zero_on_equal() {
    // LD A,0x42; CP 0x42
    let mut cpu = cpu_with_program(&[0x3E, 0x42, 0xFE, 0x42]);
    cpu.run_next_instruction().unwrap();
    cpu.run_next_instruction().unwrap();
    assert_eq!(cpu.register.a, 0x42);
    assert_eq!(cpu.register.flag.z, 1);
    assert_eq!(cpu.register.flag.n, 1);
}

#[test]
fn register_to_register_loads() {
    // LD A,0x07; LD B,A; LD C,B
    let mut cpu = cpu_with_program(&[0x3E, 0x07, 0x47, 0x48]);
    cpu.run_next_instruction().unwrap();
    cpu.run_next_instruction().unwrap();
    cpu.run_next_instruction().unwrap();
    assert_eq!(cpu.register.b, 0x07);
    assert_eq!(cpu.register.c, 0x07);
    assert_eq!(cpu.pc, 0x0104);
}

#[test]
fn halt_waits_for_enabled_pending_interrupt() {
    let mut cpu = cpu_with_program(&[0x76, 0x00]);
    cpu.bus.store(0xFFFF, 0x00).unwrap();
    cpu.bus.store(0xFF0F, 0x00).unwrap();
    cpu.run_next_instruction().unwrap();
    assert!(cpu.halted);
    let pc = cpu.pc;
    let cycles = cpu.bus.cycles;
    cpu.run_next_instruction().unwrap();
    // halted: only cycles elapse
    assert!(cpu.halted);
    assert_eq!(cpu.pc, pc);
    assert_eq!(cpu.bus.cycles, cycles + 4);
    // an enabled pending interrupt wakes the core
    cpu.bus.store(0xFFFF, 0x01).unwrap();
    cpu.bus.store(0xFF0F, 0x01).unwrap();
    cpu.run_next_instruction().unwrap();
    assert!(!cpu.halted);
    assert_eq!(cpu.pc, pc + 1);
}

#[test]
fn interrupt_disable_is_delayed_one_instruction() {
    let mut cpu = cpu_with_program(&[0xF3, 0x00, 0x00]);
    assert!(cpu.ime);
    cpu.update_ime();
    cpu.run_next_instruction().unwrap();
    assert_eq!(cpu.di, 2);
    cpu.update_ime();
    cpu.run_next_instruction().unwrap();
    assert!(cpu.ime);
    cpu.update_ime();
    assert!(!cpu.ime);
}

#[test]
fn conditional_relative_jump_costs() {
    // LD A,0x01; CP 0x01 sets z; JR NZ,+5 is not taken
    let mut cpu = cpu_with_program(&[0x3E, 0x01, 0xFE, 0x01, 0x20, 0x05, 0x00]);
    cpu.run_next_instruction().unwrap();
    cpu.run_next_instruction().unwrap();
    let cycles = cpu.bus.cycles;
    cpu.run_next_instruction().unwrap();
    assert_eq!(cpu.pc, 0x0106);
    assert_eq!(cpu.bus.cycles, cycles + 8);
    // JR Z is taken and costs more
    let mut cpu2 = cpu_with_program(&[0x3E, 0x01, 0xFE, 0x01, 0x28, 0x05, 0x00]);
    cpu2.run_next_instruction().unwrap();
    cpu2.run_next_instruction().unwrap();
    let cycles2 = cpu2.bus.cycles;
    cpu2.run_next_instruction().unwrap();
    assert_eq!(cpu2.pc, 0x010B);
    assert_eq!(cpu2.bus.cycles, cycles2 + 12);
}

#[test]
fn backward_relative_jump_sign_extends() {
    // LD A,0x01; CP 0x02 clears z; JR NZ,-4 jumps back
    let mut cpu = cpu_with_program(&[0x3E, 0x01, 0xFE, 0x02, 0x20, 0xFC]);
    cpu.run_next_instruction().unwrap();
    cpu.run_next_instruction().unwrap();
    cpu.run_next_instruction().unwrap();
    assert_eq!(cpu.pc, 0x0102);
}

#[test]
fn call_pushes_and_ret_returns() {
    // CALL 0x0150; at 0x0150 a RET
    let mut data = image(0, 0x8000);
    data[0x0100] = 0xCD;
    data[0x0101] = 0x50;
    data[0x0102] = 0x01;
    data[0x0150] = 0xC9;
    let mut cpu = Cpu::new(Bus::new(get_mbc(data).unwrap()));
    cpu.sp = 0xD000;
    cpu.run_next_instruction().unwrap();
    assert_eq!(cpu.pc, 0x0150);
    assert_eq!(cpu.sp, 0xCFFE);
    cpu.run_next_instruction().unwrap();
    assert_eq!(cpu.pc, 0x0102);
    assert_eq!(cpu.sp, 0xD000);
}

#[test]
fn restart_jumps_to_vector() {
    let mut cpu = cpu_with_program(&[0xFF]);
    cpu.sp = 0xD000;
    cpu.run_next_instruction().unwrap();
    assert_eq!(cpu.pc, 0x0038);
    assert_eq!(cpu.bus.load(0xCFFE), Ok(0x01));
    assert_eq!(cpu.bus.load(0xCFFF), Ok(0x00));
}

#[test]
fn swap_and_res_extended_opcodes() {
    // LD A,0xF1; SWAP A; RES 0,B with B = 0
    let mut cpu = cpu_with_program(&[0x3E, 0xF1, 0xCB, 0x37, 0xCB, 0x80]);
    cpu.run_next_instruction().unwrap();
    cpu.run_next_instruction().unwrap();
    assert_eq!(cpu.register.a, 0x1F);
    cpu.register.b = 0x0B;
    cpu.run_next_instruction().unwrap();
    assert_eq!(cpu.register.b, 0x0A);
}

#[test]
fn frame_probe_pixels() {
    let mut cpu = cpu_with_program(&[0x00]);
    assert_eq!(cpu.get_data_gui(0, 0), 0);
    cpu.test_draw();
    assert_eq!(cpu.get_data_gui(0, 0), 0xFF0000);
    assert_eq!(cpu.get_data_gui(80, 72), 0xFF0000);
    assert_eq!(cpu.get_data_gui(1, 1), 0);
}

#[test]
fn parser_accepts_the_grammar() {
    assert_eq!(parse_command(b""), Some(Command::Repeat));
    assert_eq!(parse_command(b"s"), Some(Command::Step(1)));
    assert_eq!(parse_command(b"step"), Some(Command::Step(1)));
    assert_eq!(parse_command(b"s 5"), Some(Command::Step(5)));
    assert_eq!(parse_command(b"step  12"), Some(Command::Step(12)));
    assert_eq!(parse_command(b"e"), Some(Command::Exit));
    assert_eq!(parse_command(b"q"), Some(Command::Exit));
    assert_eq!(parse_command(b"exit"), Some(Command::Exit));
    assert_eq!(parse_command(b"quit"), Some(Command::Exit));
}

#[test]
fn parser_rejects_everything_else() {
    assert_eq!(parse_command(b"bogus"), None);
    assert_eq!(parse_command(b"step "), None);
    assert_eq!(parse_command(b"s5"), None);
    assert_eq!(parse_command(b"step 5x"), None);
    assert_eq!(parse_command(b"se"), None);
    assert_eq!(parse_command(b"exit now"), None);
    // a count past the machine's range is a parse error
    assert_eq!(parse_command(b"step 99999999999999999999999999"), None);
}

#[test]
fn repeat_resolves_to_last_command() {
    assert_eq!(
        resolve_command(Some(Command::Repeat), Some(Command::Step(3))),
        Some(Command::Step(3))
    );
    assert_eq!(resolve_command(Some(Command::Repeat), None), None);
    assert_eq!(resolve_command(Some(Command::Exit), Some(Command::Step(3))), Some(Command::Exit));
    assert_eq!(resolve_command(None, Some(Command::Exit)), None);
}

#[test]
fn debugger_steps_the_core() {
    let cpu = cpu_with_program(&[0x00, 0x00, 0x00]);
    let mut dbg = Debugger::new(cpu);
    dbg.step(3).unwrap();
    assert_eq!(dbg.cpu.pc, 0x0103);
    assert_eq!(dbg.cpu.bus.cycles, 12);
}

#[test]
fn debugger_stops_at_fault() {
    let cpu = cpu_with_program(&[0x00, 0xD3]);
    let mut dbg = Debugger::new(cpu);
    assert_eq!(dbg.step(5), Err(EmuError::UnknownOpcode(0xD3, 0x0101)));
}
