use vstd::prelude::*;

use crate::EmuError;
use crate::bus::{
    Bus, BusV, bus_wf, spec_add_to_clock, spec_bus_new, spec_load, spec_store, spec_store16,
    spec_store16_state,
};
use crate::interrupt::spec_irq_ready;
use crate::mbc::mbc_wf;
use crate::register::{
    Flag, Register, flag_wf, pack_flags, pair16, reg_wf, spec_set_af, spec_set_bc, spec_set_de,
    spec_set_hl,
};

verus! {

/// The execution core: it owns the bus, the register file, the program
/// counter and stack pointer, the interrupt-master-enable flag with its two
/// delayed-transition countdowns, and the halted flag.
pub struct Cpu {
    pub bus: Bus,

    pub pc: u16,
    pub sp: u16,

    pub register: Register,

    pub current_pc: u16,

    pub ime: bool,

    pub di: u32,
    pub ei: u32,

    pub halted: bool,
}

/// The mathematical state of the whole machine.
#[verifier::ext_equal]
pub struct CpuV {
    pub bus: BusV,
    pub pc: u16,
    pub sp: u16,
    pub register: Register,
    pub current_pc: u16,
    pub ime: bool,
    pub di: u32,
    pub ei: u32,
    pub halted: bool,
}

impl View for Cpu {
    type V = CpuV;

    open spec fn view(&self) -> CpuV {
        CpuV {
            bus: self.bus@,
            pc: self.pc,
            sp: self.sp,
            register: self.register,
            current_pc: self.current_pc,
            ime: self.ime,
            di: self.di,
            ei: self.ei,
            halted: self.halted,
        }
    }
}

pub open spec fn cpu_wf(c: CpuV) -> bool {
    reg_wf(c.register) && bus_wf(c.bus)
}

/// A 16-bit value wrapped into its range.
pub open spec fn w16(x: int) -> u16 {
    (x % 0x10000) as u16
}

/// The signed value of an 8-bit relative-jump operand.
pub open spec fn signed8(n: u8) -> int {
    if n < 128 {
        n as int
    } else {
        n as int - 256
    }
}

pub open spec fn flags8(z: bool, n: bool, h: bool, cf: bool) -> Flag {
    Flag {
        z: if z {
            1
        } else {
            0
        },
        n: if n {
            1
        } else {
            0
        },
        h: if h {
            1
        } else {
            0
        },
        c: if cf {
            1
        } else {
            0
        },
    }
}

/// The register file with new flags, the packed `f` byte kept in step.
pub open spec fn with_flags(r: Register, fl: Flag) -> Register {
    Register { flag: fl, f: pack_flags(fl) as u8, ..r }
}

/// An 8-bit register selected by its operand index: 0 b, 1 c, 2 d, 3 e,
/// 4 h, 5 l, 7 a (6 names the memory operand and selects no register).
pub open spec fn reg_get(r: Register, i: int) -> u8 {
    if i == 0 {
        r.b
    } else if i == 1 {
        r.c
    } else if i == 2 {
        r.d
    } else if i == 3 {
        r.e
    } else if i == 4 {
        r.h
    } else if i == 5 {
        r.l
    } else {
        r.a
    }
}

pub open spec fn reg_set(r: Register, i: int, v: u8) -> Register {
    if i == 0 {
        Register { b: v, ..r }
    } else if i == 1 {
        Register { c: v, ..r }
    } else if i == 2 {
        Register { d: v, ..r }
    } else if i == 3 {
        Register { e: v, ..r }
    } else if i == 4 {
        Register { h: v, ..r }
    } else if i == 5 {
        Register { l: v, ..r }
    } else {
        Register { a: v, ..r }
    }
}

pub open spec fn reg_hl(c: CpuV) -> u16 {
    pair16(c.register.h, c.register.l) as u16
}

pub open spec fn reg_bc(c: CpuV) -> u16 {
    pair16(c.register.b, c.register.c) as u16
}

pub open spec fn reg_de(c: CpuV) -> u16 {
    pair16(c.register.d, c.register.e) as u16
}

pub open spec fn reg_af(c: CpuV) -> u16 {
    pair16(c.register.a, c.register.f) as u16
}

/// The machine after `k` cycles have been accounted on the bus.
pub open spec fn sp_tick(c: CpuV, k: u16) -> CpuV {
    CpuV { bus: spec_add_to_clock(c.bus, k), ..c }
}

/// Relates a step's runtime outcome to its specified one: on success the
/// machine reaches the specified state; on failure the error matches (the
/// machine keeps only its well-formedness, as a fatal fault ends the run).
pub open spec fn step_matches(r: Result<(), EmuError>, cf: CpuV, sr: Result<CpuV, EmuError>) -> bool {
    match sr {
        Ok(c2) => r is Ok && cf == c2,
        Err(e) => r == Err::<(), EmuError>(e),
    }
}

/// The ALU over the accumulator: kind 0 add, 1 add-with-carry, 2 subtract,
/// 3 subtract-with-carry, 4 and, 5 xor, 6 or, 7 compare (which discards the
/// difference).  Zero, subtract, half-carry and carry flags are computed
/// from the actual operands and result of the operation; the given cycle
/// cost is accounted.
#[verifier::opaque]
pub open spec fn spec_alu(c: CpuV, kind: int, v: u8, cost: u16) -> CpuV {
    let a = c.register.a;
    let cin = c.register.flag.c;
    let bus2 = spec_add_to_clock(c.bus, cost);
    if kind == 0 {
        let res = ((a + v) % 256) as u8;
        let fl = flags8(res == 0, false, a as int % 16 + v as int % 16 > 15, a + v > 255);
        CpuV { register: with_flags(Register { a: res, ..c.register }, fl), bus: bus2, ..c }
    } else if kind == 1 {
        let res = ((a + v + cin) % 256) as u8;
        let fl = flags8(
            res == 0,
            false,
            a as int % 16 + v as int % 16 + cin > 15,
            a + v + cin > 255,
        );
        CpuV { register: with_flags(Register { a: res, ..c.register }, fl), bus: bus2, ..c }
    } else if kind == 2 {
        let res = ((a + 256 - v) % 256) as u8;
        let fl = flags8(res == 0, true, a as int % 16 < v as int % 16, a < v);
        CpuV { register: with_flags(Register { a: res, ..c.register }, fl), bus: bus2, ..c }
    } else if kind == 3 {
        let res = ((a + 512 - v - cin) % 256) as u8;
        let fl = flags8(res == 0, true, a as int % 16 < v as int % 16 + cin, a < v + cin);
        CpuV { register: with_flags(Register { a: res, ..c.register }, fl), bus: bus2, ..c }
    } else if kind == 4 {
        let res = a & v;
        let fl = flags8(res == 0, false, true, false);
        CpuV { register: with_flags(Register { a: res, ..c.register }, fl), bus: bus2, ..c }
    } else if kind == 5 {
        let res = a ^ v;
        let fl = flags8(res == 0, false, false, false);
        CpuV { register: with_flags(Register { a: res, ..c.register }, fl), bus: bus2, ..c }
    } else if kind == 6 {
        let res = a | v;
        let fl = flags8(res == 0, false, false, false);
        CpuV { register: with_flags(Register { a: res, ..c.register }, fl), bus: bus2, ..c }
    } else {
        let res = (a + 256 - v) % 256;
        let fl = flags8(res == 0, true, a as int % 16 < v as int % 16, a < v);
        CpuV { register: with_flags(c.register, fl), bus: bus2, ..c }
    }
}

/// An 8-bit register increment: zero and half-carry from the old value,
/// subtract cleared, carry kept.
pub open spec fn spec_inc_r(c: CpuV, i: int, cost: u16) -> CpuV {
    let old_v = reg_get(c.register, i);
    let res = ((old_v + 1) % 256) as u8;
    let fl = Flag {
        z: if res == 0 {
            1
        } else {
            0
        },
        n: 0,
        h: if old_v as int % 16 + 1 > 15 {
            1
        } else {
            0
        },
        c: c.register.flag.c,
    };
    CpuV {
        register: with_flags(reg_set(c.register, i, res), fl),
        bus: spec_add_to_clock(c.bus, cost),
        ..c
    }
}

/// An 8-bit register decrement: half-carry set when the low nibble borrows.
pub open spec fn spec_dec_r(c: CpuV, i: int, cost: u16) -> CpuV {
    let old_v = reg_get(c.register, i);
    let res = ((old_v + 255) % 256) as u8;
    let fl = Flag {
        z: if res == 0 {
            1
        } else {
            0
        },
        n: 1,
        h: if old_v as int % 16 == 0 {
            1
        } else {
            0
        },
        c: c.register.flag.c,
    };
    CpuV {
        register: with_flags(reg_set(c.register, i, res), fl),
        bus: spec_add_to_clock(c.bus, cost),
        ..c
    }
}

/// An immediate load into a register: one operand byte is consumed.
pub open spec fn spec_ld_imm(c: CpuV, i: int, n: u8) -> CpuV {
    CpuV {
        register: reg_set(c.register, i, n),
        pc: w16(c.pc + 1),
        bus: spec_add_to_clock(c.bus, 8),
        ..c
    }
}

/// A nibble swap of a register; the zero flag reflects the value.
pub open spec fn spec_swap_r(c: CpuV, i: int, cost: u16) -> CpuV {
    let v = reg_get(c.register, i);
    let res = ((v % 16) * 16 + v / 16) as u8;
    let fl = flags8(v == 0, false, false, false);
    CpuV {
        register: with_flags(reg_set(c.register, i, res), fl),
        bus: spec_add_to_clock(c.bus, cost),
        ..c
    }
}

/// Clearing bit 0 of a register; flags are untouched.
pub open spec fn spec_res0_r(c: CpuV, i: int, cost: u16) -> CpuV {
    let v = reg_get(c.register, i);
    CpuV {
        register: reg_set(c.register, i, (v / 2 * 2) as u8),
        bus: spec_add_to_clock(c.bus, cost),
        ..c
    }
}

/// Rotate the accumulator left by one; the bit rotated out lands in the
/// carry flag and the zero flag reflects the result.
pub open spec fn spec_rlca(c: CpuV) -> CpuV {
    let a = c.register.a;
    let res = ((a % 128) * 2 + a / 128) as u8;
    let fl = flags8(res == 0, false, false, a / 128 == 1);
    CpuV {
        register: with_flags(Register { a: res, ..c.register }, fl),
        bus: spec_add_to_clock(c.bus, 4),
        ..c
    }
}

/// Rotate the accumulator right by one; the bit rotated out lands in the
/// carry flag.
pub open spec fn spec_rrca(c: CpuV) -> CpuV {
    let a = c.register.a;
    let res = (a / 2 + (a % 2) * 128) as u8;
    let fl = flags8(res == 0, false, false, a % 2 == 1);
    CpuV {
        register: with_flags(Register { a: res, ..c.register }, fl),
        bus: spec_add_to_clock(c.bus, 4),
        ..c
    }
}

/// An 8-bit right rotation by a variable amount.
pub open spec fn rotr8(a: u8, k: int) -> u8 {
    if k == 1 {
        (a / 2 + (a % 2) * 128) as u8
    } else if k == 2 {
        (a / 4 + (a % 4) * 64) as u8
    } else if k == 3 {
        (a / 8 + (a % 8) * 32) as u8
    } else if k == 4 {
        (a / 16 + (a % 16) * 16) as u8
    } else if k == 5 {
        (a / 32 + (a % 32) * 8) as u8
    } else if k == 6 {
        (a / 64 + (a % 64) * 4) as u8
    } else if k == 7 {
        (a / 128 + (a % 128) * 2) as u8
    } else {
        a
    }
}

/// Rotate the accumulator right by the value of register c (modulo 8); the
/// accumulator's old bit 0 lands in the carry flag.
pub open spec fn spec_rra_by_c(c: CpuV) -> CpuV {
    let a = c.register.a;
    let res = rotr8(a, c.register.c as int % 8);
    let fl = flags8(res == 0, false, false, a % 2 == 1);
    CpuV {
        register: with_flags(Register { a: res, ..c.register }, fl),
        bus: spec_add_to_clock(c.bus, 4),
        ..c
    }
}

/// A byte store followed by a cycle charge; `pcadd` operand bytes are
/// consumed.
pub open spec fn sp_store_tick(c: CpuV, addr: u16, v: u8, cost: u16, pcadd: u16) -> Result<
    CpuV,
    EmuError,
> {
    match spec_store(c.bus, addr, v) {
        Err(e) => Err(e),
        Ok(b2) => Ok(CpuV { pc: w16(c.pc + pcadd), bus: spec_add_to_clock(b2, cost), ..c }),
    }
}

/// An in-memory byte increment without flag effects.
pub open spec fn sp_mem_inc(c: CpuV, addr: u16, cost: u16) -> Result<CpuV, EmuError> {
    match spec_load(c.bus, addr) {
        Err(e) => Err(e),
        Ok(v) => sp_store_tick(c, addr, ((v + 1) % 256) as u8, cost, 0),
    }
}

/// An in-memory byte decrement without flag effects.
pub open spec fn sp_mem_dec(c: CpuV, addr: u16, cost: u16) -> Result<CpuV, EmuError> {
    match spec_load(c.bus, addr) {
        Err(e) => Err(e),
        Ok(v) => sp_store_tick(c, addr, ((v + 255) % 256) as u8, cost, 0),
    }
}

/// The in-memory increment at hl, with zero and half-carry computed from
/// the loaded value.
pub open spec fn sp_mem_inc_flags(c: CpuV, addr: u16) -> Result<CpuV, EmuError> {
    match spec_load(c.bus, addr) {
        Err(e) => Err(e),
        Ok(v) => {
            let res = ((v + 1) % 256) as u8;
            let fl = Flag {
                z: if res == 0 {
                    1
                } else {
                    0
                },
                n: 0,
                h: if v as int % 16 + 1 > 15 {
                    1
                } else {
                    0
                },
                c: c.register.flag.c,
            };
            match spec_store(c.bus, addr, res) {
                Err(e) => Err(e),
                Ok(b2) => Ok(
                    CpuV {
                        register: with_flags(c.register, fl),
                        bus: spec_add_to_clock(b2, 12),
                        ..c
                    },
                ),
            }
        },
    }
}

/// The in-memory decrement at hl, with zero and half-borrow computed from
/// the loaded value.
pub open spec fn sp_mem_dec_flags(c: CpuV, addr: u16) -> Result<CpuV, EmuError> {
    match spec_load(c.bus, addr) {
        Err(e) => Err(e),
        Ok(v) => {
            let res = ((v + 255) % 256) as u8;
            let fl = Flag {
                z: if res == 0 {
                    1
                } else {
                    0
                },
                n: 1,
                h: if v as int % 16 == 0 {
                    1
                } else {
                    0
                },
                c: c.register.flag.c,
            };
            match spec_store(c.bus, addr, res) {
                Err(e) => Err(e),
                Ok(b2) => Ok(
                    CpuV {
                        register: with_flags(c.register, fl),
                        bus: spec_add_to_clock(b2, 12),
                        ..c
                    },
                ),
            }
        },
    }
}

/// A load into the accumulator; `pcadd` operand bytes are consumed.
pub open spec fn sp_load_a(c: CpuV, addr: u16, cost: u16, pcadd: u16) -> Result<CpuV, EmuError> {
    match spec_load(c.bus, addr) {
        Err(e) => Err(e),
        Ok(v) => Ok(
            CpuV {
                register: Register { a: v, ..c.register },
                pc: w16(c.pc + pcadd),
                bus: spec_add_to_clock(c.bus, cost),
                ..c
            },
        ),
    }
}

/// The byte-wise 16-bit-add family: the bytes at `src` and at hl are added
/// and written back to hl; half-carry and carry come from the operand
/// bytes, the zero flag is kept.
pub open spec fn sp_add16mem(c: CpuV, src: u16) -> Result<CpuV, EmuError> {
    match spec_load(c.bus, src) {
        Err(e) => Err(e),
        Ok(v1) => match spec_load(c.bus, reg_hl(c)) {
            Err(e) => Err(e),
            Ok(v2) => {
                let res = ((v1 + v2) % 256) as u8;
                let fl = Flag {
                    z: c.register.flag.z,
                    n: 0,
                    h: if v1 as int % 16 + v2 as int % 16 > 15 {
                        1
                    } else {
                        0
                    },
                    c: if v1 + v2 > 255 {
                        1
                    } else {
                        0
                    },
                };
                match spec_store(c.bus, reg_hl(c), res) {
                    Err(e) => Err(e),
                    Ok(b2) => Ok(
                        CpuV {
                            register: with_flags(c.register, fl),
                            bus: spec_add_to_clock(b2, 8),
                            ..c
                        },
                    ),
                }
            },
        },
    }
}

/// The stack push: the stack pointer moves down by two, then the 16-bit
/// value is stored there, most significant byte first.
pub open spec fn sp_push(c: CpuV, v: u16) -> Result<CpuV, EmuError> {
    let sp2 = w16(c.sp - 2);
    match spec_store16(c.bus, sp2, v) {
        Err(e) => Err(e),
        Ok(b2) => Ok(CpuV { sp: sp2, bus: b2, ..c }),
    }
}

/// The stack pop: the 16-bit value at the stack pointer is read, most
/// significant byte first, then the pointer moves up by two.
pub open spec fn sp_pop(c: CpuV) -> Result<(CpuV, u16), EmuError> {
    match spec_load(c.bus, c.sp) {
        Err(e) => Err(e),
        Ok(hi) => match spec_load(c.bus, w16(c.sp + 1)) {
            Err(e) => Err(e),
            Ok(lo) => Ok((CpuV { sp: w16(c.sp + 2), ..c }, (hi * 256 + lo) as u16)),
        },
    }
}

/// A relative jump: one operand byte is consumed; on the taken path the
/// offset is added and the higher cycle cost is charged.
pub open spec fn sp_jr(c: CpuV, taken: bool, off: int) -> CpuV {
    if taken {
        CpuV { pc: w16(c.pc + 1 + off), bus: spec_add_to_clock(c.bus, 12), ..c }
    } else {
        CpuV { pc: w16(c.pc + 1), bus: spec_add_to_clock(c.bus, 8), ..c }
    }
}

/// An absolute jump: on the taken path the target replaces the program
/// counter; otherwise the two operand bytes are consumed.  Taken and
/// not-taken cycle costs are both modeled.
pub open spec fn sp_jp(c: CpuV, taken: bool, nn: u16, tcost: u16, ncost: u16) -> CpuV {
    if taken {
        CpuV { pc: nn, bus: spec_add_to_clock(c.bus, tcost), ..c }
    } else {
        CpuV { pc: w16(c.pc + 2), bus: spec_add_to_clock(c.bus, ncost), ..c }
    }
}

/// A call: on the taken path the return address is pushed and the target
/// replaces the program counter; otherwise the two operand bytes are
/// consumed and the lower cost is charged.
pub open spec fn sp_call(c: CpuV, taken: bool, nn: u16, tcost: u16) -> Result<CpuV, EmuError> {
    if taken {
        match sp_push(c, w16(c.current_pc + 2)) {
            Err(e) => Err(e),
            Ok(c2) => Ok(CpuV { pc: nn, bus: spec_add_to_clock(c2.bus, tcost), ..c2 }),
        }
    } else {
        Ok(CpuV { pc: w16(c.pc + 2), bus: spec_add_to_clock(c.bus, 12), ..c })
    }
}

/// A return: on the taken path the popped address replaces the program
/// counter and the higher cost is charged.
pub open spec fn sp_ret(c: CpuV, taken: bool, tcost: u16, ncost: u16) -> Result<CpuV, EmuError> {
    if taken {
        match sp_pop(c) {
            Err(e) => Err(e),
            Ok(p) => Ok(CpuV { pc: p.1, bus: spec_add_to_clock(p.0.bus, tcost), ..p.0 }),
        }
    } else {
        Ok(CpuV { bus: spec_add_to_clock(c.bus, ncost), ..c })
    }
}

/// A restart: the current instruction address is pushed and execution
/// continues at the fixed vector.
pub open spec fn sp_rst(c: CpuV, vec: u16) -> Result<CpuV, EmuError> {
    match sp_push(c, c.current_pc) {
        Err(e) => Err(e),
        Ok(c2) => Ok(CpuV { pc: vec, bus: spec_add_to_clock(c2.bus, 32), ..c2 }),
    }
}

/// The pop-into-memory family: a 16-bit value is popped and stored at the
/// address held in a register pair.
pub open spec fn sp_pop_to_mem(c: CpuV, addr: u16) -> Result<CpuV, EmuError> {
    match sp_pop(c) {
        Err(e) => Err(e),
        Ok(p) => match spec_store16(p.0.bus, addr, p.1) {
            Err(e) => Err(e),
            Ok(b2) => Ok(CpuV { bus: spec_add_to_clock(b2, 12), ..p.0 }),
        },
    }
}

/// Store the accumulator at hl, then step hl down by one.
pub open spec fn sp_ldd_hl_a(c: CpuV) -> Result<CpuV, EmuError> {
    match spec_store(c.bus, reg_hl(c), c.register.a) {
        Err(e) => Err(e),
        Ok(b2) => Ok(
            CpuV {
                register: spec_set_hl(c.register, w16(reg_hl(c) - 1)),
                bus: spec_add_to_clock(b2, 8),
                ..c
            },
        ),
    }
}

/// Store the successor of the stack pointer as a 16-bit value at the stack
/// pointer's own address; the pointer itself is unchanged.
pub open spec fn sp_inc_sp_mem(c: CpuV) -> Result<CpuV, EmuError> {
    match spec_store16(c.bus, c.sp, w16(c.sp + 1)) {
        Err(e) => Err(e),
        Ok(b2) => Ok(CpuV { bus: spec_add_to_clock(b2, 8), ..c }),
    }
}

/// Add the byte at hl to the stack pointer and store the 16-bit sum back at
/// hl; half-carry and carry come from the actual operands, zero is kept.
pub open spec fn sp_add_sp_mem(c: CpuV) -> Result<CpuV, EmuError> {
    match spec_load(c.bus, reg_hl(c)) {
        Err(e) => Err(e),
        Ok(v2) => {
            let v = w16(c.sp + v2);
            let fl = Flag {
                z: c.register.flag.z,
                n: 0,
                h: if c.sp as int % 0x1000 + v2 > 0xFFF {
                    1
                } else {
                    0
                },
                c: if c.sp + v2 > 0xFFFF {
                    1
                } else {
                    0
                },
            };
            match spec_store16(c.bus, reg_hl(c), v) {
                Err(e) => Err(e),
                Ok(b2) => Ok(
                    CpuV {
                        register: with_flags(c.register, fl),
                        bus: spec_add_to_clock(b2, 8),
                        ..c
                    },
                ),
            }
        },
    }
}

/// Load the accumulator from hl, then store the decremented byte back.
pub open spec fn sp_ldd_a_hl(c: CpuV) -> Result<CpuV, EmuError> {
    match spec_load(c.bus, reg_hl(c)) {
        Err(e) => Err(e),
        Ok(v) => match spec_store(c.bus, reg_hl(c), ((v + 255) % 256) as u8) {
            Err(e) => Err(e),
            Ok(b2) => Ok(
                CpuV {
                    register: Register { a: v, ..c.register },
                    bus: spec_add_to_clock(b2, 8),
                    ..c
                },
            ),
        },
    }
}

#[verifier::opaque]
pub open spec fn spec_op_0(c: CpuV, op: u8, n: u8, nn: u16) -> Result<CpuV, EmuError> {
    if op == 0x00 {
        Ok(sp_tick(c, 4))
    } else if op == 0x01 {
        Ok(
            CpuV {
                register: spec_set_bc(c.register, nn),
                pc: w16(c.pc + 2),
                bus: spec_add_to_clock(c.bus, 12),
                ..c
            },
        )
    } else if op == 0x02 {
        sp_store_tick(c, reg_bc(c), c.register.a, 8, 0)
    } else if op == 0x03 {
        sp_mem_inc(c, reg_bc(c), 8)
    } else if op == 0x04 {
        Ok(spec_inc_r(c, 0, 4))
    } else if op == 0x05 {
        Ok(spec_dec_r(c, 0, 4))
    } else if op == 0x06 {
        Ok(spec_ld_imm(c, 0, n))
    } else if op == 0x07 {
        Ok(spec_rlca(c))
    } else if op == 0x08 {
        match spec_store16(c.bus, nn, c.sp) {
            Err(e) => Err(e),
            Ok(b2) => Ok(CpuV { pc: w16(c.pc + 2), bus: spec_add_to_clock(b2, 20), ..c }),
        }
    } else if op == 0x09 {
        sp_add16mem(c, reg_bc(c))
    } else if op == 0x0A {
        sp_load_a(c, reg_bc(c), 8, 0)
    } else if op == 0x0B {
        sp_mem_dec(c, reg_bc(c), 8)
    } else if op == 0x0C {
        Ok(spec_inc_r(c, 1, 4))
    } else if op == 0x0D {
        Ok(spec_dec_r(c, 1, 4))
    } else if op == 0x0E {
        Ok(spec_ld_imm(c, 1, n))
    } else {
        Ok(spec_rrca(c))
    }
}

#[verifier::opaque]
pub open spec fn spec_op_1(c: CpuV, op: u8, n: u8, nn: u16) -> Result<CpuV, EmuError> {
    if op == 0x11 {
        Ok(
            CpuV {
                register: spec_set_de(c.register, nn),
                pc: w16(c.pc + 2),
                bus: spec_add_to_clock(c.bus, 12),
                ..c
            },
        )
    } else if op == 0x12 {
        sp_store_tick(c, reg_de(c), c.register.a, 8, 0)
    } else if op == 0x13 {
        sp_mem_inc(c, reg_de(c), 8)
    } else if op == 0x14 {
        Ok(spec_inc_r(c, 2, 4))
    } else if op == 0x15 {
        Ok(spec_dec_r(c, 2, 4))
    } else if op == 0x16 {
        Ok(spec_ld_imm(c, 2, n))
    } else if op == 0x19 {
        sp_add16mem(c, reg_de(c))
    } else if op == 0x1A {
        sp_load_a(c, reg_de(c), 8, 0)
    } else if op == 0x1B {
        sp_mem_dec(c, reg_de(c), 8)
    } else if op == 0x1C {
        Ok(spec_inc_r(c, 3, 4))
    } else if op == 0x1D {
        Ok(spec_dec_r(c, 3, 4))
    } else if op == 0x1E {
        Ok(spec_ld_imm(c, 3, n))
    } else if op == 0x1F {
        Ok(spec_rra_by_c(c))
    } else {
        Err(EmuError::UnknownOpcode(op, c.current_pc))
    }
}

#[verifier::opaque]
pub open spec fn spec_op_2(c: CpuV, op: u8, n: u8, nn: u16) -> Result<CpuV, EmuError> {
    if op == 0x20 {
        Ok(sp_jr(c, c.register.flag.z == 0, signed8(n)))
    } else if op == 0x21 {
        Ok(
            CpuV {
                register: spec_set_hl(c.register, nn),
                pc: w16(c.pc + 2),
                bus: spec_add_to_clock(c.bus, 12),
                ..c
            },
        )
    } else if op == 0x23 {
        sp_mem_inc(c, reg_hl(c), 8)
    } else if op == 0x24 {
        Ok(spec_inc_r(c, 4, 4))
    } else if op == 0x25 {
        Ok(spec_dec_r(c, 4, 4))
    } else if op == 0x26 {
        Ok(spec_ld_imm(c, 4, n))
    } else if op == 0x28 {
        Ok(sp_jr(c, c.register.flag.z == 1, n as int))
    } else if op == 0x29 {
        sp_add16mem(c, reg_hl(c))
    } else if op == 0x2B {
        sp_mem_dec(c, reg_hl(c), 8)
    } else if op == 0x2C {
        Ok(spec_inc_r(c, 5, 4))
    } else if op == 0x2D {
        Ok(spec_dec_r(c, 2, 4))
    } else if op == 0x2E {
        Ok(spec_ld_imm(c, 5, n))
    } else {
        Err(EmuError::UnknownOpcode(op, c.current_pc))
    }
}

#[verifier::opaque]
pub open spec fn spec_op_3(c: CpuV, op: u8, n: u8, nn: u16) -> Result<CpuV, EmuError> {
    if op == 0x30 {
        Ok(sp_jr(c, c.register.flag.c == 0, n as int))
    } else if op == 0x31 {
        Ok(CpuV { sp: nn, pc: w16(c.pc + 2), bus: spec_add_to_clock(c.bus, 12), ..c })
    } else if op == 0x32 {
        sp_ldd_hl_a(c)
    } else if op == 0x33 {
        sp_inc_sp_mem(c)
    } else if op == 0x34 {
        sp_mem_inc_flags(c, reg_hl(c))
    } else if op == 0x35 {
        sp_mem_dec_flags(c, reg_hl(c))
    } else if op == 0x36 {
        sp_store_tick(c, reg_hl(c), n, 12, 1)
    } else if op == 0x38 {
        Ok(sp_jr(c, c.register.flag.c == 1, n as int))
    } else if op == 0x39 {
        sp_add_sp_mem(c)
    } else if op == 0x3A {
        sp_ldd_a_hl(c)
    } else if op == 0x3B {
        Ok(CpuV { sp: w16(c.sp - 1), bus: spec_add_to_clock(c.bus, 8), ..c })
    } else if op == 0x3C {
        Ok(spec_inc_r(c, 7, 4))
    } else if op == 0x3D {
        Ok(spec_dec_r(c, 7, 4))
    } else if op == 0x3E {
        Ok(spec_ld_imm(c, 7, n))
    } else {
        Err(EmuError::UnknownOpcode(op, c.current_pc))
    }
}

/// The 8-bit load block 0x40..=0x7F: destination in bits 5..3, source in
/// bits 2..0, operand index 6 naming the byte at hl; opcode 0x76 is halt.
#[verifier::opaque]
pub open spec fn spec_op_ld(c: CpuV, op: u8) -> Result<CpuV, EmuError> {
    let dst = (op - 0x40) as int / 8;
    let src = op as int % 8;
    if op == 0x76 {
        Ok(CpuV { halted: true, bus: spec_add_to_clock(c.bus, 4), ..c })
    } else if src == 6 {
        match spec_load(c.bus, reg_hl(c)) {
            Err(e) => Err(e),
            Ok(v) => Ok(
                CpuV {
                    register: reg_set(c.register, dst, v),
                    bus: spec_add_to_clock(c.bus, 8),
                    ..c
                },
            ),
        }
    } else if dst == 6 {
        sp_store_tick(c, reg_hl(c), reg_get(c.register, src), 8, 0)
    } else {
        Ok(
            CpuV {
                register: reg_set(c.register, dst, reg_get(c.register, src)),
                bus: spec_add_to_clock(c.bus, 4),
                ..c
            },
        )
    }
}

/// The ALU block 0x80..=0xBF: operation in bits 5..3, operand in bits 2..0.
#[verifier::opaque]
pub open spec fn spec_op_alu(c: CpuV, op: u8) -> Result<CpuV, EmuError> {
    let kind = (op - 0x80) as int / 8;
    let src = op as int % 8;
    if src == 6 {
        match spec_load(c.bus, reg_hl(c)) {
            Err(e) => Err(e),
            Ok(v) => Ok(spec_alu(c, kind, v, 8)),
        }
    } else {
        Ok(spec_alu(c, kind, reg_get(c.register, src), 4))
    }
}

#[verifier::opaque]
pub open spec fn spec_op_c(c: CpuV, op: u8, n: u8, nn: u16) -> Result<CpuV, EmuError> {
    if op == 0xC0 {
        sp_ret(c, c.register.flag.z == 0, 20, 8)
    } else if op == 0xC1 {
        sp_pop_to_mem(c, reg_bc(c))
    } else if op == 0xC2 {
        Ok(sp_jp(c, c.register.flag.c == 0, nn, 16, 12))
    } else if op == 0xC3 {
        Ok(sp_jp(c, true, nn, 16, 16))
    } else if op == 0xC4 {
        sp_call(c, c.register.flag.z == 0, nn, 24)
    } else if op == 0xC6 {
        Ok(CpuV { pc: w16(c.pc + 1), ..spec_alu(c, 0, n, 8) })
    } else if op == 0xC7 {
        sp_rst(c, 0x00)
    } else if op == 0xC8 {
        sp_ret(c, c.register.flag.z == 1, 20, 8)
    } else if op == 0xC9 {
        sp_ret(c, true, 8, 8)
    } else if op == 0xCA {
        Ok(sp_jp(c, c.register.flag.z == 1, nn, 16, 12))
    } else if op == 0xCB {
        spec_step_ext(c)
    } else if op == 0xCC {
        sp_call(c, c.register.flag.z == 1, nn, 24)
    } else if op == 0xCD {
        sp_call(c, true, nn, 12)
    } else if op == 0xCE {
        Ok(CpuV { pc: w16(c.pc + 1), ..spec_alu(c, 1, n, 8) })
    } else if op == 0xCF {
        sp_rst(c, 0x08)
    } else {
        Err(EmuError::UnknownOpcode(op, c.current_pc))
    }
}

#[verifier::opaque]
pub open spec fn spec_op_d(c: CpuV, op: u8, n: u8, nn: u16) -> Result<CpuV, EmuError> {
    if op == 0xD0 {
        sp_ret(c, c.register.flag.c == 0, 20, 8)
    } else if op == 0xD1 {
        sp_pop_to_mem(c, reg_de(c))
    } else if op == 0xD2 {
        Ok(sp_jp(c, c.register.flag.c == 0, nn, 16, 12))
    } else if op == 0xD4 {
        sp_call(c, c.register.flag.c == 0, nn, 24)
    } else if op == 0xD6 {
        Ok(CpuV { pc: w16(c.pc + 1), ..spec_alu(c, 2, n, 8) })
    } else if op == 0xD7 {
        sp_rst(c, 0x10)
    } else if op == 0xD8 {
        sp_ret(c, c.register.flag.c == 1, 20, 8)
    } else if op == 0xDA {
        Ok(sp_jp(c, c.register.flag.c == 1, nn, 16, 12))
    } else if op == 0xDC {
        sp_call(c, c.register.flag.c == 1, nn, 24)
    } else if op == 0xDF {
        sp_rst(c, 0x18)
    } else {
        Err(EmuError::UnknownOpcode(op, c.current_pc))
    }
}

#[verifier::opaque]
pub open spec fn spec_op_e(c: CpuV, op: u8, n: u8, nn: u16) -> Result<CpuV, EmuError> {
    if op == 0xE0 {
        sp_store_tick(c, (0xFF00 + n) as u16, c.register.a, 12, 1)
    } else if op == 0xE1 {
        sp_pop_to_mem(c, reg_hl(c))
    } else if op == 0xE2 {
        sp_store_tick(c, (0xFF00 + c.register.c) as u16, c.register.a, 8, 0)
    } else if op == 0xE6 {
        Ok(CpuV { pc: w16(c.pc + 1), ..spec_alu(c, 4, n, 8) })
    } else if op == 0xE7 {
        sp_rst(c, 0x20)
    } else if op == 0xE8 {
        let fl = Flag {
            z: 0,
            n: 0,
            h: if c.sp as int % 16 + n as int % 16 > 15 {
                1
            } else {
                0
            },
            c: if c.sp as int % 256 + n > 255 {
                1
            } else {
                0
            },
        };
        Ok(
            CpuV {
                sp: w16(c.sp + n),
                register: with_flags(c.register, fl),
                bus: spec_add_to_clock(c.bus, 16),
                ..c
            },
        )
    } else if op == 0xEA {
        sp_store_tick(c, nn, c.register.a, 16, 2)
    } else if op == 0xEE {
        Ok(CpuV { pc: w16(c.pc + 1), ..spec_alu(c, 5, n, 8) })
    } else if op == 0xEF {
        sp_rst(c, 0x28)
    } else {
        Err(EmuError::UnknownOpcode(op, c.current_pc))
    }
}

#[verifier::opaque]
pub open spec fn spec_op_f(c: CpuV, op: u8, n: u8, nn: u16) -> Result<CpuV, EmuError> {
    if op == 0xF0 {
        sp_load_a(c, (0xFF00 + n) as u16, 12, 1)
    } else if op == 0xF1 {
        sp_pop_to_mem(c, reg_af(c))
    } else if op == 0xF2 {
        sp_load_a(c, (0xFF00 + c.register.c) as u16, 8, 0)
    } else if op == 0xF3 {
        Ok(CpuV { di: 2, bus: spec_add_to_clock(c.bus, 4), ..c })
    } else if op == 0xF6 {
        Ok(CpuV { pc: w16(c.pc + 1), ..spec_alu(c, 6, n, 8) })
    } else if op == 0xF7 {
        sp_rst(c, 0x30)
    } else if op == 0xF8 {
        match spec_store16(c.bus, reg_hl(c), w16(c.sp + n)) {
            Err(e) => Err(e),
            Ok(b2) => Ok(CpuV { pc: w16(c.pc + 1), bus: spec_add_to_clock(b2, 12), ..c }),
        }
    } else if op == 0xFA {
        sp_load_a(c, nn, 16, 2)
    } else if op == 0xFE {
        Ok(CpuV { pc: w16(c.pc + 1), ..spec_alu(c, 7, n, 8) })
    } else if op == 0xFF {
        sp_rst(c, 0x38)
    } else {
        Err(EmuError::UnknownOpcode(op, c.current_pc))
    }
}

/// The extended table: nibble swaps at 0x30..=0x37 and clearing bit 0 at
/// 0x80..=0x87, each over the standard operand encoding.
#[verifier::opaque]
pub open spec fn spec_op_ext(c: CpuV, op: u8) -> Result<CpuV, EmuError> {
    if 0x30 <= op <= 0x37 {
        let src = (op - 0x30) as int;
        if src == 6 {
            match spec_load(c.bus, reg_hl(c)) {
                Err(e) => Err(e),
                Ok(v) => {
                    let res = ((v % 16) * 16 + v / 16) as u8;
                    let fl = flags8(v == 0, false, false, false);
                    match spec_store(c.bus, reg_hl(c), res) {
                        Err(e) => Err(e),
                        Ok(b2) => Ok(
                            CpuV {
                                register: with_flags(c.register, fl),
                                bus: spec_add_to_clock(b2, 16),
                                ..c
                            },
                        ),
                    }
                },
            }
        } else {
            Ok(spec_swap_r(c, src, 8))
        }
    } else if 0x80 <= op <= 0x87 {
        let src = (op - 0x80) as int;
        if src == 6 {
            match spec_load(c.bus, reg_hl(c)) {
                Err(e) => Err(e),
                Ok(v) => sp_store_tick(c, reg_hl(c), (v / 2 * 2) as u8, 16, 0),
            }
        } else {
            Ok(spec_res0_r(c, src, 8))
        }
    } else {
        Err(EmuError::UnknownExtOpcode(op, c.current_pc))
    }
}

/// Decoding after an opcode fetch: the two bytes after the instruction are
/// read eagerly as the potential immediate operands, then the opcode is
/// dispatched through the primary table.
pub open spec fn spec_decode(c: CpuV, op: u8) -> Result<CpuV, EmuError> {
    match spec_load(c.bus, w16(c.current_pc + 2)) {
        Err(e) => Err(e),
        Ok(hi) => match spec_load(c.bus, w16(c.current_pc + 1)) {
            Err(e) => Err(e),
            Ok(n) => {
                let nn = (hi * 256 + n) as u16;
                if op < 0x10 {
                    spec_op_0(c, op, n, nn)
                } else if op < 0x20 {
                    spec_op_1(c, op, n, nn)
                } else if op < 0x30 {
                    spec_op_2(c, op, n, nn)
                } else if op < 0x40 {
                    spec_op_3(c, op, n, nn)
                } else if op < 0x80 {
                    spec_op_ld(c, op)
                } else if op < 0xC0 {
                    spec_op_alu(c, op)
                } else if op < 0xD0 {
                    spec_op_c(c, op, n, nn)
                } else if op < 0xE0 {
                    spec_op_d(c, op, n, nn)
                } else if op < 0xF0 {
                    spec_op_e(c, op, n, nn)
                } else {
                    spec_op_f(c, op, n, nn)
                }
            },
        },
    }
}

/// The extended-table step reached through the selector opcode: a second
/// fetch-decode cycle against the extended table.
pub open spec fn spec_step_ext(c: CpuV) -> Result<CpuV, EmuError> {
    match spec_load(c.bus, c.pc) {
        Err(e) => Err(e),
        Ok(op2) => {
            let c2 = CpuV { current_pc: c.pc, pc: w16(c.pc + 1), ..c };
            match spec_load(c2.bus, w16(c2.current_pc + 2)) {
                Err(e) => Err(e),
                Ok(_) => match spec_load(c2.bus, w16(c2.current_pc + 1)) {
                    Err(e) => Err(e),
                    Ok(_) => spec_op_ext(c2, op2),
                },
            }
        },
    }
}

/// One full instruction step.  While halted, and no enabled interrupt is
/// pending, no fetch occurs and 4 cycles are charged — the internal clocks
/// keep running so the timer can raise the interrupt that wakes the core;
/// an enabled pending interrupt wakes it.  Otherwise the opcode at the
/// program counter is fetched (its address recorded for diagnostics), the
/// counter advances past it, and the opcode executes.
pub open spec fn spec_step(c: CpuV) -> Result<CpuV, EmuError> {
    if c.halted && !spec_irq_ready(c.bus.ie, c.bus.ifl) {
        Ok(sp_tick(c, 4))
    } else {
        let c0 = CpuV { halted: false, ..c };
        match spec_load(c0.bus, c0.pc) {
            Err(e) => Err(e),
            Ok(op) => {
                let c1 = CpuV { current_pc: c0.pc, pc: w16(c0.pc + 1), ..c0 };
                spec_decode(c1, op)
            },
        }
    }
}

/// The delayed interrupt-master-enable transitions: a countdown of 2 set by
/// the disable or enable instruction becomes 1 after one step and applies
/// on the next, so the change takes effect one full instruction late.
pub open spec fn spec_update_ime(c: CpuV) -> CpuV {
    let di2: u32 = if c.di == 2 {
        1
    } else {
        0
    };
    let ime1 = if c.di == 1 {
        false
    } else {
        c.ime
    };
    let ei2: u32 = if c.ei == 2 {
        1
    } else {
        0
    };
    let ime2 = if c.ei == 1 {
        true
    } else {
        ime1
    };
    CpuV { di: di2, ei: ei2, ime: ime2, ..c }
}

/// A store whose failure is discarded: the bus state when the store
/// succeeds, the old state otherwise.  The power-up sequence writes only
/// modeled registers, so every one of its stores succeeds.
pub open spec fn st_keep(b: BusV, addr: u16, v: u8) -> BusV {
    match spec_store(b, addr, v) {
        Ok(b2) => b2,
        Err(_) => b,
    }
}

impl Cpu {
    fn tick(&mut self, k: u16)
        ensures
            final(self)@ == sp_tick(old(self)@, k),
    {
        self.bus.add_to_clock(k);
    }

    fn bump_pc(&mut self, k: u16)
        ensures
            final(self)@ == (CpuV { pc: w16(old(self)@.pc + k), ..old(self)@ }),
    {
        self.pc = self.pc.wrapping_add(k);
        proof {
            assert(self.pc == w16(old(self).pc + k));
        }
    }

    fn get_r8(&self, i: u8) -> (r: u8)
        requires
            i <= 7,
            i != 6,
        ensures
            r == reg_get(self@.register, i as int),
    {
        if i == 0 {
            self.register.b
        } else if i == 1 {
            self.register.c
        } else if i == 2 {
            self.register.d
        } else if i == 3 {
            self.register.e
        } else if i == 4 {
            self.register.h
        } else if i == 5 {
            self.register.l
        } else {
            self.register.a
        }
    }

    fn set_r8(&mut self, i: u8, v: u8)
        requires
            i <= 7,
            i != 6,
        ensures
            final(self)@ == (CpuV {
                register: reg_set(old(self)@.register, i as int, v),
                ..old(self)@
            }),
    {
        if i == 0 {
            self.register.b = v;
        } else if i == 1 {
            self.register.c = v;
        } else if i == 2 {
            self.register.d = v;
        } else if i == 3 {
            self.register.e = v;
        } else if i == 4 {
            self.register.h = v;
        } else if i == 5 {
            self.register.l = v;
        } else {
            self.register.a = v;
        }
    }

    fn set_flags(&mut self, z: bool, n: bool, h: bool, cf: bool)
        ensures
            final(self)@ == (CpuV {
                register: with_flags(old(self)@.register, flags8(z, n, h, cf)),
                ..old(self)@
            }),
    {
        let zz: u8 = if z {
            1
        } else {
            0
        };
        let nb: u8 = if n {
            1
        } else {
            0
        };
        let hb: u8 = if h {
            1
        } else {
            0
        };
        let cb: u8 = if cf {
            1
        } else {
            0
        };
        self.register.flag = Flag { z: zz, n: nb, h: hb, c: cb };
        self.register.f = zz * 128 + nb * 64 + hb * 32 + cb * 16;
    }

    fn alu_add(&mut self, v: u8, cost: u16)
        requires
            flag_wf(old(self)@.register.flag),
        ensures
            final(self)@ == spec_alu(old(self)@, 0, v, cost),
            cpu_wf(old(self)@) ==> cpu_wf(final(self)@),
            final(self)@.pc == old(self)@.pc,
    {
        proof {
            reveal(spec_alu);
        }
        let a = self.register.a;
        let res = ((a as u16 + v as u16) % 256) as u8;
        self.register.a = res;
        self.set_flags(res == 0, false, a % 16 + v % 16 > 15, a as u16 + v as u16 > 255);
        self.tick(cost);
    }

    fn alu_adc(&mut self, v: u8, cost: u16)
        requires
            flag_wf(old(self)@.register.flag),
        ensures
            final(self)@ == spec_alu(old(self)@, 1, v, cost),
            cpu_wf(old(self)@) ==> cpu_wf(final(self)@),
            final(self)@.pc == old(self)@.pc,
    {
        proof {
            reveal(spec_alu);
        }
        let a = self.register.a;
        let cin = self.register.flag.c;
        let res = ((a as u16 + v as u16 + cin as u16) % 256) as u8;
        self.register.a = res;
        self.set_flags(
            res == 0,
            false,
            a % 16 + v % 16 + cin > 15,
            a as u16 + v as u16 + cin as u16 > 255,
        );
        self.tick(cost);
    }

    fn alu_sub(&mut self, v: u8, cost: u16)
        requires
            flag_wf(old(self)@.register.flag),
        ensures
            final(self)@ == spec_alu(old(self)@, 2, v, cost),
            cpu_wf(old(self)@) ==> cpu_wf(final(self)@),
            final(self)@.pc == old(self)@.pc,
    {
        proof {
            reveal(spec_alu);
        }
        let a = self.register.a;
        let res = ((a as u16 + 256 - v as u16) % 256) as u8;
        self.register.a = res;
        self.set_flags(res == 0, true, a % 16 < v % 16, a < v);
        self.tick(cost);
    }

    fn alu_sbc(&mut self, v: u8, cost: u16)
        requires
            flag_wf(old(self)@.register.flag),
        ensures
            final(self)@ == spec_alu(old(self)@, 3, v, cost),
            cpu_wf(old(self)@) ==> cpu_wf(final(self)@),
            final(self)@.pc == old(self)@.pc,
    {
        proof {
            reveal(spec_alu);
        }
        let a = self.register.a;
        let cin = self.register.flag.c;
        let res = ((a as u16 + 512 - v as u16 - cin as u16) % 256) as u8;
        self.register.a = res;
        self.set_flags(res == 0, true, (a % 16) < v % 16 + cin, (a as u16) < v as u16 + cin as u16);
        self.tick(cost);
    }

    fn alu_and(&mut self, v: u8, cost: u16)
        requires
            flag_wf(old(self)@.register.flag),
        ensures
            final(self)@ == spec_alu(old(self)@, 4, v, cost),
            cpu_wf(old(self)@) ==> cpu_wf(final(self)@),
            final(self)@.pc == old(self)@.pc,
    {
        proof {
            reveal(spec_alu);
        }
        let res = self.register.a & v;
        self.register.a = res;
        self.set_flags(res == 0, false, true, false);
        self.tick(cost);
    }

    fn alu_xor(&mut self, v: u8, cost: u16)
        requires
            flag_wf(old(self)@.register.flag),
        ensures
            final(self)@ == spec_alu(old(self)@, 5, v, cost),
            cpu_wf(old(self)@) ==> cpu_wf(final(self)@),
            final(self)@.pc == old(self)@.pc,
    {
        proof {
            reveal(spec_alu);
        }
        let res = self.register.a ^ v;
        self.register.a = res;
        self.set_flags(res == 0, false, false, false);
        self.tick(cost);
    }

    fn alu_or(&mut self, v: u8, cost: u16)
        requires
            flag_wf(old(self)@.register.flag),
        ensures
            final(self)@ == spec_alu(old(self)@, 6, v, cost),
            cpu_wf(old(self)@) ==> cpu_wf(final(self)@),
            final(self)@.pc == old(self)@.pc,
    {
        proof {
            reveal(spec_alu);
        }
        let res = self.register.a | v;
        self.register.a = res;
        self.set_flags(res == 0, false, false, false);
        self.tick(cost);
    }

    fn alu_cp(&mut self, v: u8, cost: u16)
        requires
            flag_wf(old(self)@.register.flag),
        ensures
            final(self)@ == spec_alu(old(self)@, 7, v, cost),
            cpu_wf(old(self)@) ==> cpu_wf(final(self)@),
            final(self)@.pc == old(self)@.pc,
    {
        proof {
            reveal(spec_alu);
        }
        let a = self.register.a;
        let res = ((a as u16 + 256 - v as u16) % 256) as u8;
        self.set_flags(res == 0, true, a % 16 < v % 16, a < v);
        self.tick(cost);
    }

    fn alu_op(&mut self, kind: u8, v: u8, cost: u16)
        requires
            kind <= 7,
            flag_wf(old(self)@.register.flag),
        ensures
            final(self)@ == spec_alu(old(self)@, kind as int, v, cost),
            cpu_wf(old(self)@) ==> cpu_wf(final(self)@),
            final(self)@.pc == old(self)@.pc,
    {
        if kind == 0 {
            self.alu_add(v, cost);
        } else if kind == 1 {
            self.alu_adc(v, cost);
        } else if kind == 2 {
            self.alu_sub(v, cost);
        } else if kind == 3 {
            self.alu_sbc(v, cost);
        } else if kind == 4 {
            self.alu_and(v, cost);
        } else if kind == 5 {
            self.alu_xor(v, cost);
        } else if kind == 6 {
            self.alu_or(v, cost);
        } else {
            self.alu_cp(v, cost);
        }
    }

    fn inc_reg(&mut self, i: u8, cost: u16)
        requires
            i <= 7,
            i != 6,
            flag_wf(old(self)@.register.flag),
        ensures
            final(self)@ == spec_inc_r(old(self)@, i as int, cost),
    {
        let old_v = self.get_r8(i);
        let keep_c = self.register.flag.c;
        let res = ((old_v as u16 + 1) % 256) as u8;
        self.set_r8(i, res);
        self.set_flags(res == 0, false, old_v % 16 + 1 > 15, keep_c == 1);
        self.tick(cost);
    }

    fn dec_reg(&mut self, i: u8, cost: u16)
        requires
            i <= 7,
            i != 6,
            flag_wf(old(self)@.register.flag),
        ensures
            final(self)@ == spec_dec_r(old(self)@, i as int, cost),
    {
        let old_v = self.get_r8(i);
        let keep_c = self.register.flag.c;
        let res = ((old_v as u16 + 255) % 256) as u8;
        self.set_r8(i, res);
        self.set_flags(res == 0, true, old_v % 16 == 0, keep_c == 1);
        self.tick(cost);
    }

    fn ld_imm_r(&mut self, i: u8, n: u8)
        requires
            i <= 7,
            i != 6,
        ensures
            final(self)@ == spec_ld_imm(old(self)@, i as int, n),
    {
        self.set_r8(i, n);
        self.bump_pc(1);
        self.tick(8);
    }

    fn swap_reg(&mut self, i: u8, cost: u16)
        requires
            i <= 7,
            i != 6,
        ensures
            final(self)@ == spec_swap_r(old(self)@, i as int, cost),
    {
        let v = self.get_r8(i);
        let res = (v % 16) * 16 + v / 16;
        self.set_r8(i, res);
        self.set_flags(v == 0, false, false, false);
        self.tick(cost);
    }

    fn res0_reg(&mut self, i: u8, cost: u16)
        requires
            i <= 7,
            i != 6,
        ensures
            final(self)@ == spec_res0_r(old(self)@, i as int, cost),
    {
        let v = self.get_r8(i);
        self.set_r8(i, v / 2 * 2);
        self.tick(cost);
    }

    fn rlca_op(&mut self)
        ensures
            final(self)@ == spec_rlca(old(self)@),
    {
        let a = self.register.a;
        let res = (a % 128) * 2 + a / 128;
        self.register.a = res;
        self.set_flags(res == 0, false, false, a / 128 == 1);
        self.tick(4);
    }

    fn rrca_op(&mut self)
        ensures
            final(self)@ == spec_rrca(old(self)@),
    {
        let a = self.register.a;
        let res = a / 2 + (a % 2) * 128;
        self.register.a = res;
        self.set_flags(res == 0, false, false, a % 2 == 1);
        self.tick(4);
    }

    fn rra_by_c_op(&mut self)
        ensures
            final(self)@ == spec_rra_by_c(old(self)@),
    {
        let a = self.register.a;
        let k = self.register.c % 8;
        let res: u8 = if k == 1 {
            a / 2 + (a % 2) * 128
        } else if k == 2 {
            a / 4 + (a % 4) * 64
        } else if k == 3 {
            a / 8 + (a % 8) * 32
        } else if k == 4 {
            a / 16 + (a % 16) * 16
        } else if k == 5 {
            a / 32 + (a % 32) * 8
        } else if k == 6 {
            a / 64 + (a % 64) * 4
        } else if k == 7 {
            a / 128 + (a % 128) * 2
        } else {
            a
        };
        self.register.a = res;
        self.set_flags(res == 0, false, false, a % 2 == 1);
        self.tick(4);
    }

    fn store_tick(&mut self, addr: u16, v: u8, cost: u16, pcadd: u16) -> (r: Result<(), EmuError>)
        requires
            bus_wf(old(self)@.bus),
        ensures
            step_matches(r, final(self)@, sp_store_tick(old(self)@, addr, v, cost, pcadd)),
            bus_wf(final(self)@.bus),
            final(self)@.register == old(self)@.register,
    {
        match self.bus.store(addr, v) {
            Err(e) => Err(e),
            Ok(_) => {
                self.bus.add_to_clock(cost);
                self.bump_pc(pcadd);
                Ok(())
            },
        }
    }

    fn mem_inc(&mut self, addr: u16, cost: u16) -> (r: Result<(), EmuError>)
        requires
            bus_wf(old(self)@.bus),
        ensures
            step_matches(r, final(self)@, sp_mem_inc(old(self)@, addr, cost)),
            bus_wf(final(self)@.bus),
            final(self)@.register == old(self)@.register,
    {
        match self.bus.load(addr) {
            Err(e) => Err(e),
            Ok(v) => self.store_tick(addr, ((v as u16 + 1) % 256) as u8, cost, 0),
        }
    }

    fn mem_dec(&mut self, addr: u16, cost: u16) -> (r: Result<(), EmuError>)
        requires
            bus_wf(old(self)@.bus),
        ensures
            step_matches(r, final(self)@, sp_mem_dec(old(self)@, addr, cost)),
            bus_wf(final(self)@.bus),
            final(self)@.register == old(self)@.register,
    {
        match self.bus.load(addr) {
            Err(e) => Err(e),
            Ok(v) => self.store_tick(addr, ((v as u16 + 255) % 256) as u8, cost, 0),
        }
    }

    fn mem_inc_flags(&mut self, addr: u16) -> (r: Result<(), EmuError>)
        requires
            cpu_wf(old(self)@),
        ensures
            step_matches(r, final(self)@, sp_mem_inc_flags(old(self)@, addr)),
            bus_wf(final(self)@.bus),
            flag_wf(final(self)@.register.flag) && final(self)@.register.f == pack_flags(
                final(self)@.register.flag,
            ),
    {
        match self.bus.load(addr) {
            Err(e) => Err(e),
            Ok(v) => {
                let res = ((v as u16 + 1) % 256) as u8;
                match self.bus.store(addr, res) {
                    Err(e) => Err(e),
                    Ok(_) => {
                        let keep_c = self.register.flag.c;
                        self.set_flags(res == 0, false, v % 16 + 1 > 15, keep_c == 1);
                        self.tick(12);
                        Ok(())
                    },
                }
            },
        }
    }

    fn mem_dec_flags(&mut self, addr: u16) -> (r: Result<(), EmuError>)
        requires
            cpu_wf(old(self)@),
        ensures
            step_matches(r, final(self)@, sp_mem_dec_flags(old(self)@, addr)),
            bus_wf(final(self)@.bus),
            flag_wf(final(self)@.register.flag) && final(self)@.register.f == pack_flags(
                final(self)@.register.flag,
            ),
    {
        match self.bus.load(addr) {
            Err(e) => Err(e),
            Ok(v) => {
                let res = ((v as u16 + 255) % 256) as u8;
                match self.bus.store(addr, res) {
                    Err(e) => Err(e),
                    Ok(_) => {
                        let keep_c = self.register.flag.c;
                        self.set_flags(res == 0, true, v % 16 == 0, keep_c == 1);
                        self.tick(12);
                        Ok(())
                    },
                }
            },
        }
    }

    fn load_a_op(&mut self, addr: u16, cost: u16, pcadd: u16) -> (r: Result<(), EmuError>)
        requires
            bus_wf(old(self)@.bus),
        ensures
            step_matches(r, final(self)@, sp_load_a(old(self)@, addr, cost, pcadd)),
            bus_wf(final(self)@.bus),
            final(self)@.register.flag == old(self)@.register.flag,
            final(self)@.register.f == old(self)@.register.f,
    {
        match self.bus.load(addr) {
            Err(e) => Err(e),
            Ok(v) => {
                self.register.a = v;
                self.bump_pc(pcadd);
                self.tick(cost);
                Ok(())
            },
        }
    }

    fn add16mem(&mut self, src: u16) -> (r: Result<(), EmuError>)
        requires
            cpu_wf(old(self)@),
        ensures
            step_matches(r, final(self)@, sp_add16mem(old(self)@, src)),
            bus_wf(final(self)@.bus),
            flag_wf(final(self)@.register.flag) && final(self)@.register.f == pack_flags(
                final(self)@.register.flag,
            ),
    {
        let hl = self.register.hl();
        match self.bus.load(src) {
            Err(e) => Err(e),
            Ok(v1) => match self.bus.load(hl) {
                Err(e) => Err(e),
                Ok(v2) => {
                    let res = ((v1 as u16 + v2 as u16) % 256) as u8;
                    match self.bus.store(hl, res) {
                        Err(e) => Err(e),
                        Ok(_) => {
                            let keep_z = self.register.flag.z;
                            self.set_flags(
                                keep_z == 1,
                                false,
                                v1 % 16 + v2 % 16 > 15,
                                v1 as u16 + v2 as u16 > 255,
                            );
                            self.tick(8);
                            Ok(())
                        },
                    }
                },
            },
        }
    }

    /// Pushes a 16-bit value: the stack pointer moves down by two, then the
    /// value is stored there, most significant byte first.
    pub fn push_stack(&mut self, value: u16) -> (r: Result<(), EmuError>)
        requires
            cpu_wf(old(self)@),
        ensures
            (match sp_push(old(self)@, value) {
                Ok(c2) => r is Ok && final(self)@ == c2,
                Err(e) => r == Err::<(), EmuError>(e),
            }),
            final(self)@ == (CpuV {
                sp: w16(old(self)@.sp - 2),
                bus: spec_store16_state(old(self)@.bus, w16(old(self)@.sp - 2), value),
                ..old(self)@
            }),
            cpu_wf(final(self)@),
    {
        self.sp = self.sp.wrapping_sub(2);
        proof {
            assert(self.sp == w16(old(self).sp - 2));
        }
        match self.bus.store16(self.sp, value) {
            Err(e) => Err(e),
            Ok(_) => Ok(()),
        }
    }

    /// Pops a 16-bit value: the bytes at the stack pointer are read, most
    /// significant byte first, then the pointer moves up by two.
    pub fn pop_stack(&mut self) -> (r: Result<u16, EmuError>)
        requires
            cpu_wf(old(self)@),
        ensures
            (match sp_pop(old(self)@) {
                Ok(p) => r is Ok && r->Ok_0 == p.1 && final(self)@ == p.0,
                Err(e) => r == Err::<u16, EmuError>(e),
            }),
            sp_pop(old(self)@) is Err ==> final(self)@ == old(self)@,
            cpu_wf(final(self)@),
    {
        let hi = match self.bus.load(self.sp) {
            Err(e) => {
                return Err(e);
            },
            Ok(v) => v,
        };
        let lo = match self.bus.load(self.sp.wrapping_add(1)) {
            Err(e) => {
                return Err(e);
            },
            Ok(v) => v,
        };
        let value = (hi as u16) * 256 + lo as u16;
        self.sp = self.sp.wrapping_add(2);
        proof {
            assert(self.sp == w16(old(self).sp + 2));
        }
        Ok(value)
    }

    #[verifier::rlimit(50)]
    #[verifier::spinoff_prover]
    fn jr_op(&mut self, taken: bool, n: u8, sign: bool)
        ensures
            final(self)@ == sp_jr(
                old(self)@,
                taken,
                if sign {
                    signed8(n)
                } else {
                    n as int
                },
            ),
    {
        if taken {
            if sign && n >= 128 {
                self.pc = self.pc.wrapping_add(1).wrapping_add(n as u16).wrapping_sub(256);
            } else {
                self.pc = self.pc.wrapping_add(1).wrapping_add(n as u16);
            }
            proof {
                assert(self.pc == w16(
                    old(self).pc + 1 + (if sign {
                        signed8(n)
                    } else {
                        n as int
                    }),
                ));
            }
            self.tick(12);
        } else {
            self.bump_pc(1);
            self.tick(8);
        }
    }

    fn jp_op(&mut self, taken: bool, nn: u16, tcost: u16, ncost: u16)
        ensures
            final(self)@ == sp_jp(old(self)@, taken, nn, tcost, ncost),
    {
        if taken {
            self.pc = nn;
            self.tick(tcost);
        } else {
            self.bump_pc(2);
            self.tick(ncost);
        }
    }

    fn call_op(&mut self, taken: bool, nn: u16, tcost: u16) -> (r: Result<(), EmuError>)
        requires
            cpu_wf(old(self)@),
        ensures
            step_matches(r, final(self)@, sp_call(old(self)@, taken, nn, tcost)),
            cpu_wf(final(self)@),
    {
        if taken {
            let ret = self.current_pc.wrapping_add(2);
            proof {
                assert(ret == w16(old(self).current_pc + 2));
            }
            match self.push_stack(ret) {
                Err(e) => Err(e),
                Ok(_) => {
                    self.pc = nn;
                    self.tick(tcost);
                    Ok(())
                },
            }
        } else {
            self.bump_pc(2);
            self.tick(12);
            Ok(())
        }
    }

    fn ret_op(&mut self, taken: bool, tcost: u16, ncost: u16) -> (r: Result<(), EmuError>)
        requires
            cpu_wf(old(self)@),
        ensures
            step_matches(r, final(self)@, sp_ret(old(self)@, taken, tcost, ncost)),
            cpu_wf(final(self)@),
    {
        if taken {
            match self.pop_stack() {
                Err(e) => Err(e),
                Ok(v) => {
                    self.pc = v;
                    self.tick(tcost);
                    Ok(())
                },
            }
        } else {
            self.tick(ncost);
            Ok(())
        }
    }

    fn rst_op(&mut self, vec: u16) -> (r: Result<(), EmuError>)
        requires
            cpu_wf(old(self)@),
        ensures
            step_matches(r, final(self)@, sp_rst(old(self)@, vec)),
            cpu_wf(final(self)@),
    {
        let ret = self.current_pc;
        match self.push_stack(ret) {
            Err(e) => Err(e),
            Ok(_) => {
                self.pc = vec;
                self.tick(32);
                Ok(())
            },
        }
    }

    fn pop_to_mem(&mut self, addr: u16) -> (r: Result<(), EmuError>)
        requires
            cpu_wf(old(self)@),
        ensures
            step_matches(r, final(self)@, sp_pop_to_mem(old(self)@, addr)),
            cpu_wf(final(self)@),
    {
        match self.pop_stack() {
            Err(e) => Err(e),
            Ok(v) => match self.bus.store16(addr, v) {
                Err(e) => Err(e),
                Ok(_) => {
                    self.tick(12);
                    Ok(())
                },
            },
        }
    }

    fn ldd_hl_a(&mut self) -> (r: Result<(), EmuError>)
        requires
            cpu_wf(old(self)@),
        ensures
            step_matches(r, final(self)@, sp_ldd_hl_a(old(self)@)),
            cpu_wf(final(self)@),
    {
        let hl = self.register.hl();
        let a = self.register.a;
        match self.bus.store(hl, a) {
            Err(e) => Err(e),
            Ok(_) => {
                self.tick(8);
                self.register.set_hl(hl.wrapping_sub(1));
                proof {
                    assert(hl.wrapping_sub(1) == w16(hl - 1));
                }
                Ok(())
            },
        }
    }

    fn inc_sp_mem(&mut self) -> (r: Result<(), EmuError>)
        requires
            cpu_wf(old(self)@),
        ensures
            step_matches(r, final(self)@, sp_inc_sp_mem(old(self)@)),
            cpu_wf(final(self)@),
    {
        let sp1 = self.sp.wrapping_add(1);
        proof {
            assert(sp1 == w16(self.sp + 1));
        }
        match self.bus.store16(self.sp, sp1) {
            Err(e) => Err(e),
            Ok(_) => {
                self.tick(8);
                Ok(())
            },
        }
    }

    fn add_sp_mem(&mut self) -> (r: Result<(), EmuError>)
        requires
            cpu_wf(old(self)@),
        ensures
            step_matches(r, final(self)@, sp_add_sp_mem(old(self)@)),
            cpu_wf(final(self)@),
    {
        let hl = self.register.hl();
        let sp_old = self.sp;
        match self.bus.load(hl) {
            Err(e) => Err(e),
            Ok(v2) => {
                let v = sp_old.wrapping_add(v2 as u16);
                proof {
                    assert(v == w16(sp_old + v2));
                }
                match self.bus.store16(hl, v) {
                    Err(e) => Err(e),
                    Ok(_) => {
                        let keep_z = self.register.flag.z;
                        self.set_flags(
                            keep_z == 1,
                            false,
                            sp_old % 0x1000 + v2 as u16 > 0xFFF,
                            sp_old as u32 + v2 as u32 > 0xFFFF,
                        );
                        self.tick(8);
                        Ok(())
                    },
                }
            },
        }
    }

    fn ldd_a_hl(&mut self) -> (r: Result<(), EmuError>)
        requires
            cpu_wf(old(self)@),
        ensures
            step_matches(r, final(self)@, sp_ldd_a_hl(old(self)@)),
            cpu_wf(final(self)@),
    {
        let hl = self.register.hl();
        match self.bus.load(hl) {
            Err(e) => Err(e),
            Ok(v) => {
                self.register.a = v;
                match self.bus.store(hl, ((v as u16 + 255) % 256) as u8) {
                    Err(e) => Err(e),
                    Ok(_) => {
                        self.tick(8);
                        Ok(())
                    },
                }
            },
        }
    }

    #[verifier::rlimit(100)]
    #[verifier::spinoff_prover]
    fn op_0(&mut self, op: u8, n: u8, nn: u16) -> (r: Result<(), EmuError>)
        requires
            cpu_wf(old(self)@),
            op < 0x10,
        ensures
            step_matches(r, final(self)@, spec_op_0(old(self)@, op, n, nn)),
            cpu_wf(final(self)@),
    {
        proof {
            reveal(spec_op_0);
        }
        if op == 0x00 {
            self.tick(4);
            Ok(())
        } else if op == 0x01 {
            self.register.set_bc(nn);
            self.bump_pc(2);
            self.tick(12);
            Ok(())
        } else if op == 0x02 {
            let addr = self.register.bc();
            let a = self.register.a;
            self.store_tick(addr, a, 8, 0)
        } else if op == 0x03 {
            let addr = self.register.bc();
            self.mem_inc(addr, 8)
        } else if op == 0x04 {
            self.inc_reg(0, 4);
            Ok(())
        } else if op == 0x05 {
            self.dec_reg(0, 4);
            Ok(())
        } else if op == 0x06 {
            self.ld_imm_r(0, n);
            Ok(())
        } else if op == 0x07 {
            self.rlca_op();
            Ok(())
        } else if op == 0x08 {
            match self.bus.store16(nn, self.sp) {
                Err(e) => Err(e),
                Ok(_) => {
                    self.bump_pc(2);
                    self.tick(20);
                    Ok(())
                },
            }
        } else if op == 0x09 {
            let addr = self.register.bc();
            self.add16mem(addr)
        } else if op == 0x0A {
            let addr = self.register.bc();
            self.load_a_op(addr, 8, 0)
        } else if op == 0x0B {
            let addr = self.register.bc();
            self.mem_dec(addr, 8)
        } else if op == 0x0C {
            self.inc_reg(1, 4);
            Ok(())
        } else if op == 0x0D {
            self.dec_reg(1, 4);
            Ok(())
        } else if op == 0x0E {
            self.ld_imm_r(1, n);
            Ok(())
        } else {
            self.rrca_op();
            Ok(())
        }
    }

    #[verifier::rlimit(100)]
    #[verifier::spinoff_prover]
    fn op_1(&mut self, op: u8, n: u8, nn: u16) -> (r: Result<(), EmuError>)
        requires
            cpu_wf(old(self)@),
            0x10 <= op < 0x20,
        ensures
            step_matches(r, final(self)@, spec_op_1(old(self)@, op, n, nn)),
            cpu_wf(final(self)@),
    {
        proof {
            reveal(spec_op_1);
        }
        if op == 0x11 {
            self.register.set_de(nn);
            self.bump_pc(2);
            self.tick(12);
            Ok(())
        } else if op == 0x12 {
            let addr = self.register.de();
            let a = self.register.a;
            self.store_tick(addr, a, 8, 0)
        } else if op == 0x13 {
            let addr = self.register.de();
            self.mem_inc(addr, 8)
        } else if op == 0x14 {
            self.inc_reg(2, 4);
            Ok(())
        } else if op == 0x15 {
            self.dec_reg(2, 4);
            Ok(())
        } else if op == 0x16 {
            self.ld_imm_r(2, n);
            Ok(())
        } else if op == 0x19 {
            let addr = self.register.de();
            self.add16mem(addr)
        } else if op == 0x1A {
            let addr = self.register.de();
            self.load_a_op(addr, 8, 0)
        } else if op == 0x1B {
            let addr = self.register.de();
            self.mem_dec(addr, 8)
        } else if op == 0x1C {
            self.inc_reg(3, 4);
            Ok(())
        } else if op == 0x1D {
            self.dec_reg(3, 4);
            Ok(())
        } else if op == 0x1E {
            self.ld_imm_r(3, n);
            Ok(())
        } else if op == 0x1F {
            self.rra_by_c_op();
            Ok(())
        } else {
            Err(EmuError::UnknownOpcode(op, self.current_pc))
        }
    }

    fn op_2(&mut self, op: u8, n: u8, nn: u16) -> (r: Result<(), EmuError>)
        requires
            cpu_wf(old(self)@),
            0x20 <= op < 0x30,
        ensures
            step_matches(r, final(self)@, spec_op_2(old(self)@, op, n, nn)),
            cpu_wf(final(self)@),
    {
        proof {
            reveal(spec_op_2);
        }
        if op == 0x20 {
            let taken = self.register.flag.z == 0;
            self.jr_op(taken, n, true);
            Ok(())
        } else if op == 0x21 {
            self.register.set_hl(nn);
            self.bump_pc(2);
            self.tick(12);
            Ok(())
        } else if op == 0x23 {
            let addr = self.register.hl();
            self.mem_inc(addr, 8)
        } else if op == 0x24 {
            self.inc_reg(4, 4);
            Ok(())
        } else if op == 0x25 {
            self.dec_reg(4, 4);
            Ok(())
        } else if op == 0x26 {
            self.ld_imm_r(4, n);
            Ok(())
        } else if op == 0x28 {
            let taken = self.register.flag.z == 1;
            self.jr_op(taken, n, false);
            Ok(())
        } else if op == 0x29 {
            let addr = self.register.hl();
            self.add16mem(addr)
        } else if op == 0x2B {
            let addr = self.register.hl();
            self.mem_dec(addr, 8)
        } else if op == 0x2C {
            self.inc_reg(5, 4);
            Ok(())
        } else if op == 0x2D {
            self.dec_reg(2, 4);
            Ok(())
        } else if op == 0x2E {
            self.ld_imm_r(5, n);
            Ok(())
        } else {
            Err(EmuError::UnknownOpcode(op, self.current_pc))
        }
    }

    fn op_3(&mut self, op: u8, n: u8, nn: u16) -> (r: Result<(), EmuError>)
        requires
            cpu_wf(old(self)@),
            0x30 <= op < 0x40,
        ensures
            step_matches(r, final(self)@, spec_op_3(old(self)@, op, n, nn)),
            cpu_wf(final(self)@),
    {
        if op < 0x38 {
            self.op_3a(op, n, nn)
        } else {
            self.op_3b(op, n, nn)
        }
    }

    #[verifier::rlimit(100)]
    #[verifier::spinoff_prover]
    fn op_3a(&mut self, op: u8, n: u8, nn: u16) -> (r: Result<(), EmuError>)
        requires
            cpu_wf(old(self)@),
            0x30 <= op < 0x38,
        ensures
            step_matches(r, final(self)@, spec_op_3(old(self)@, op, n, nn)),
            cpu_wf(final(self)@),
    {
        proof {
            reveal(spec_op_3);
        }
        if op == 0x30 {
            let taken = self.register.flag.c == 0;
            self.jr_op(taken, n, false);
            Ok(())
        } else if op == 0x31 {
            self.sp = nn;
            self.bump_pc(2);
            self.tick(12);
            Ok(())
        } else if op == 0x32 {
            self.ldd_hl_a()
        } else if op == 0x33 {
            self.inc_sp_mem()
        } else if op == 0x34 {
            let addr = self.register.hl();
            self.mem_inc_flags(addr)
        } else if op == 0x35 {
            let addr = self.register.hl();
            self.mem_dec_flags(addr)
        } else if op == 0x36 {
            let addr = self.register.hl();
            self.store_tick(addr, n, 12, 1)
        } else {
            Err(EmuError::UnknownOpcode(op, self.current_pc))
        }
    }

    #[verifier::rlimit(100)]
    #[verifier::spinoff_prover]
    fn op_3b(&mut self, op: u8, n: u8, nn: u16) -> (r: Result<(), EmuError>)
        requires
            cpu_wf(old(self)@),
            0x38 <= op < 0x40,
        ensures
            step_matches(r, final(self)@, spec_op_3(old(self)@, op, n, nn)),
            cpu_wf(final(self)@),
    {
        proof {
            reveal(spec_op_3);
        }
        if op == 0x38 {
            let taken = self.register.flag.c == 1;
            self.jr_op(taken, n, false);
            Ok(())
        } else if op == 0x39 {
            self.add_sp_mem()
        } else if op == 0x3A {
            self.ldd_a_hl()
        } else if op == 0x3B {
            self.sp = self.sp.wrapping_sub(1);
            proof {
                assert(self.sp == w16(old(self).sp - 1));
            }
            self.tick(8);
            Ok(())
        } else if op == 0x3C {
            self.inc_reg(7, 4);
            Ok(())
        } else if op == 0x3D {
            self.dec_reg(7, 4);
            Ok(())
        } else if op == 0x3E {
            self.ld_imm_r(7, n);
            Ok(())
        } else {
            Err(EmuError::UnknownOpcode(op, self.current_pc))
        }
    }

    fn op_ld(&mut self, op: u8) -> (r: Result<(), EmuError>)
        requires
            cpu_wf(old(self)@),
            0x40 <= op < 0x80,
        ensures
            step_matches(r, final(self)@, spec_op_ld(old(self)@, op)),
            cpu_wf(final(self)@),
    {
        proof {
            reveal(spec_op_ld);
        }
        if op == 0x76 {
            self.halted = true;
            self.tick(4);
            Ok(())
        } else {
            let dst: u8 = (op - 0x40) / 8;
            let src: u8 = op % 8;
            proof {
                assert(op == 0x40 + 8 * ((op - 0x40) / 8) + (op - 0x40) % 8);
                assert((op - 0x40) % 8 == op % 8) by (bit_vector)
                    requires
                        0x40 <= op < 0x80,
                ;
            }
            if src == 6 {
                let hl = self.register.hl();
                match self.bus.load(hl) {
                    Err(e) => Err(e),
                    Ok(v) => {
                        self.set_r8(dst, v);
                        self.tick(8);
                        Ok(())
                    },
                }
            } else if dst == 6 {
                let hl = self.register.hl();
                let v = self.get_r8(src);
                self.store_tick(hl, v, 8, 0)
            } else {
                let v = self.get_r8(src);
                self.set_r8(dst, v);
                self.tick(4);
                Ok(())
            }
        }
    }

    fn op_alu_blk(&mut self, op: u8) -> (r: Result<(), EmuError>)
        requires
            cpu_wf(old(self)@),
            0x80 <= op < 0xC0,
        ensures
            step_matches(r, final(self)@, spec_op_alu(old(self)@, op)),
            cpu_wf(final(self)@),
    {
        proof {
            reveal(spec_op_alu);
        }
        let kind: u8 = (op - 0x80) / 8;
        let src: u8 = op % 8;
        proof {
            assert((op - 0x80) % 8 == op % 8) by (bit_vector)
                requires
                    0x80 <= op < 0xC0,
            ;
        }
        if src == 6 {
            let hl = self.register.hl();
            match self.bus.load(hl) {
                Err(e) => Err(e),
                Ok(v) => {
                    self.alu_op(kind, v, 8);
                    Ok(())
                },
            }
        } else {
            let v = self.get_r8(src);
            self.alu_op(kind, v, 4);
            Ok(())
        }
    }

    fn op_c(&mut self, op: u8, n: u8, nn: u16) -> (r: Result<(), EmuError>)
        requires
            cpu_wf(old(self)@),
            0xC0 <= op < 0xD0,
        ensures
            step_matches(r, final(self)@, spec_op_c(old(self)@, op, n, nn)),
            cpu_wf(final(self)@),
    {
        if op < 0xC8 {
            self.op_ca(op, n, nn)
        } else {
            self.op_cb(op, n, nn)
        }
    }

    #[verifier::rlimit(100)]
    #[verifier::spinoff_prover]
    fn op_ca(&mut self, op: u8, n: u8, nn: u16) -> (r: Result<(), EmuError>)
        requires
            cpu_wf(old(self)@),
            0xC0 <= op < 0xC8,
        ensures
            step_matches(r, final(self)@, spec_op_c(old(self)@, op, n, nn)),
            cpu_wf(final(self)@),
    {
        proof {
            reveal(spec_op_c);
        }
        if op == 0xC0 {
            let taken = self.register.flag.z == 0;
            self.ret_op(taken, 20, 8)
        } else if op == 0xC1 {
            let addr = self.register.bc();
            self.pop_to_mem(addr)
        } else if op == 0xC2 {
            let taken = self.register.flag.c == 0;
            self.jp_op(taken, nn, 16, 12);
            Ok(())
        } else if op == 0xC3 {
            self.jp_op(true, nn, 16, 16);
            Ok(())
        } else if op == 0xC4 {
            let taken = self.register.flag.z == 0;
            self.call_op(taken, nn, 24)
        } else if op == 0xC6 {
            self.alu_op(0, n, 8);
            self.bump_pc(1);
            Ok(())
        } else if op == 0xC7 {
            self.rst_op(0x00)
        } else {
            Err(EmuError::UnknownOpcode(op, self.current_pc))
        }
    }

    #[verifier::rlimit(100)]
    #[verifier::spinoff_prover]
    fn op_cb(&mut self, op: u8, n: u8, nn: u16) -> (r: Result<(), EmuError>)
        requires
            cpu_wf(old(self)@),
            0xC8 <= op < 0xD0,
        ensures
            step_matches(r, final(self)@, spec_op_c(old(self)@, op, n, nn)),
            cpu_wf(final(self)@),
    {
        proof {
            reveal(spec_op_c);
        }
        if op == 0xC8 {
            let taken = self.register.flag.z == 1;
            self.ret_op(taken, 20, 8)
        } else if op == 0xC9 {
            self.ret_op(true, 8, 8)
        } else if op == 0xCA {
            let taken = self.register.flag.z == 1;
            self.jp_op(taken, nn, 16, 12);
            Ok(())
        } else if op == 0xCB {
            self.step_ext()
        } else if op == 0xCC {
            let taken = self.register.flag.z == 1;
            self.call_op(taken, nn, 24)
        } else if op == 0xCD {
            self.call_op(true, nn, 12)
        } else if op == 0xCE {
            self.alu_op(1, n, 8);
            self.bump_pc(1);
            Ok(())
        } else if op == 0xCF {
            self.rst_op(0x08)
        } else {
            Err(EmuError::UnknownOpcode(op, self.current_pc))
        }
    }

    #[verifier::rlimit(100)]
    #[verifier::spinoff_prover]
    fn op_d(&mut self, op: u8, n: u8, nn: u16) -> (r: Result<(), EmuError>)
        requires
            cpu_wf(old(self)@),
            0xD0 <= op < 0xE0,
        ensures
            step_matches(r, final(self)@, spec_op_d(old(self)@, op, n, nn)),
            cpu_wf(final(self)@),
    {
        proof {
            reveal(spec_op_d);
        }
        if op == 0xD0 {
            let taken = self.register.flag.c == 0;
            self.ret_op(taken, 20, 8)
        } else if op == 0xD1 {
            let addr = self.register.de();
            self.pop_to_mem(addr)
        } else if op == 0xD2 {
            let taken = self.register.flag.c == 0;
            self.jp_op(taken, nn, 16, 12);
            Ok(())
        } else if op == 0xD4 {
            let taken = self.register.flag.c == 0;
            self.call_op(taken, nn, 24)
        } else if op == 0xD6 {
            self.alu_op(2, n, 8);
            self.bump_pc(1);
            Ok(())
        } else if op == 0xD7 {
            self.rst_op(0x10)
        } else if op == 0xD8 {
            let taken = self.register.flag.c == 1;
            self.ret_op(taken, 20, 8)
        } else if op == 0xDA {
            let taken = self.register.flag.c == 1;
            self.jp_op(taken, nn, 16, 12);
            Ok(())
        } else if op == 0xDC {
            let taken = self.register.flag.c == 1;
            self.call_op(taken, nn, 24)
        } else if op == 0xDF {
            self.rst_op(0x18)
        } else {
            Err(EmuError::UnknownOpcode(op, self.current_pc))
        }
    }

    #[verifier::rlimit(100)]
    #[verifier::spinoff_prover]
    fn op_e(&mut self, op: u8, n: u8, nn: u16) -> (r: Result<(), EmuError>)
        requires
            cpu_wf(old(self)@),
            0xE0 <= op < 0xF0,
        ensures
            step_matches(r, final(self)@, spec_op_e(old(self)@, op, n, nn)),
            cpu_wf(final(self)@),
    {
        proof {
            reveal(spec_op_e);
        }
        if op == 0xE0 {
            let addr: u16 = 0xFF00 + n as u16;
            let a = self.register.a;
            self.store_tick(addr, a, 12, 1)
        } else if op == 0xE1 {
            let addr = self.register.hl();
            self.pop_to_mem(addr)
        } else if op == 0xE2 {
            let addr: u16 = 0xFF00 + self.register.c as u16;
            let a = self.register.a;
            self.store_tick(addr, a, 8, 0)
        } else if op == 0xE6 {
            self.alu_op(4, n, 8);
            self.bump_pc(1);
            Ok(())
        } else if op == 0xE7 {
            self.rst_op(0x20)
        } else if op == 0xE8 {
            let sp_old = self.sp;
            self.set_flags(false, false, sp_old % 16 + (n as u16) % 16 > 15, sp_old % 256 + n as u16 > 255);
            self.sp = sp_old.wrapping_add(n as u16);
            proof {
                assert(self.sp == w16(sp_old + n));
            }
            self.tick(16);
            Ok(())
        } else if op == 0xEA {
            let a = self.register.a;
            self.store_tick(nn, a, 16, 2)
        } else if op == 0xEE {
            self.alu_op(5, n, 8);
            self.bump_pc(1);
            Ok(())
        } else if op == 0xEF {
            self.rst_op(0x28)
        } else {
            Err(EmuError::UnknownOpcode(op, self.current_pc))
        }
    }

    #[verifier::rlimit(100)]
    #[verifier::spinoff_prover]
    fn op_f(&mut self, op: u8, n: u8, nn: u16) -> (r: Result<(), EmuError>)
        requires
            cpu_wf(old(self)@),
            0xF0 <= op,
        ensures
            step_matches(r, final(self)@, spec_op_f(old(self)@, op, n, nn)),
            cpu_wf(final(self)@),
    {
        proof {
            reveal(spec_op_f);
        }
        if op == 0xF0 {
            let addr: u16 = 0xFF00 + n as u16;
            self.load_a_op(addr, 12, 1)
        } else if op == 0xF1 {
            let addr = self.register.af();
            self.pop_to_mem(addr)
        } else if op == 0xF2 {
            let addr: u16 = 0xFF00 + self.register.c as u16;
            self.load_a_op(addr, 8, 0)
        } else if op == 0xF3 {
            self.di = 2;
            self.tick(4);
            Ok(())
        } else if op == 0xF6 {
            self.alu_op(6, n, 8);
            self.bump_pc(1);
            Ok(())
        } else if op == 0xF7 {
            self.rst_op(0x30)
        } else if op == 0xF8 {
            let hl = self.register.hl();
            let v = self.sp.wrapping_add(n as u16);
            proof {
                assert(v == w16(self.sp + n));
            }
            match self.bus.store16(hl, v) {
                Err(e) => Err(e),
                Ok(_) => {
                    self.bump_pc(1);
                    self.tick(12);
                    Ok(())
                },
            }
        } else if op == 0xFA {
            self.load_a_op(nn, 16, 2)
        } else if op == 0xFE {
            self.alu_op(7, n, 8);
            self.bump_pc(1);
            Ok(())
        } else if op == 0xFF {
            self.rst_op(0x38)
        } else {
            Err(EmuError::UnknownOpcode(op, self.current_pc))
        }
    }

    fn op_ext(&mut self, op: u8) -> (r: Result<(), EmuError>)
        requires
            cpu_wf(old(self)@),
        ensures
            step_matches(r, final(self)@, spec_op_ext(old(self)@, op)),
            cpu_wf(final(self)@),
    {
        proof {
            reveal(spec_op_ext);
        }
        if 0x30 <= op && op <= 0x37 {
            let src: u8 = op - 0x30;
            if src == 6 {
                let hl = self.register.hl();
                match self.bus.load(hl) {
                    Err(e) => Err(e),
                    Ok(v) => {
                        let res = (v % 16) * 16 + v / 16;
                        match self.bus.store(hl, res) {
                            Err(e) => Err(e),
                            Ok(_) => {
                                self.set_flags(v == 0, false, false, false);
                                self.tick(16);
                                Ok(())
                            },
                        }
                    },
                }
            } else {
                self.swap_reg(src, 8);
                Ok(())
            }
        } else if 0x80 <= op && op <= 0x87 {
            let src: u8 = op - 0x80;
            if src == 6 {
                let hl = self.register.hl();
                match self.bus.load(hl) {
                    Err(e) => Err(e),
                    Ok(v) => self.store_tick(hl, v / 2 * 2, 16, 0),
                }
            } else {
                self.res0_reg(src, 8);
                Ok(())
            }
        } else {
            Err(EmuError::UnknownExtOpcode(op, self.current_pc))
        }
    }

    fn step_ext(&mut self) -> (r: Result<(), EmuError>)
        requires
            cpu_wf(old(self)@),
        ensures
            step_matches(r, final(self)@, spec_step_ext(old(self)@)),
            cpu_wf(final(self)@),
    {
        let op2 = match self.bus.load(self.pc) {
            Err(e) => {
                return Err(e);
            },
            Ok(v) => v,
        };
        self.current_pc = self.pc;
        self.pc = self.pc.wrapping_add(1);
        proof {
            assert(self.pc == w16(self.current_pc + 1));
        }
        match self.bus.load(self.current_pc.wrapping_add(2)) {
            Err(e) => {
                return Err(e);
            },
            Ok(_) => {},
        }
        match self.bus.load(self.current_pc.wrapping_add(1)) {
            Err(e) => {
                return Err(e);
            },
            Ok(_) => {},
        }
        proof {
            assert(self.current_pc.wrapping_add(2) == w16(self.current_pc + 2));
            assert(self.current_pc.wrapping_add(1) == w16(self.current_pc + 1));
        }
        self.op_ext(op2)
    }

    fn decode(&mut self, op: u8) -> (r: Result<(), EmuError>)
        requires
            cpu_wf(old(self)@),
        ensures
            step_matches(r, final(self)@, spec_decode(old(self)@, op)),
            cpu_wf(final(self)@),
    {
        proof {
            assert(self.current_pc.wrapping_add(2) == w16(self.current_pc + 2));
            assert(self.current_pc.wrapping_add(1) == w16(self.current_pc + 1));
        }
        let hi = match self.bus.load(self.current_pc.wrapping_add(2)) {
            Err(e) => {
                return Err(e);
            },
            Ok(v) => v,
        };
        let lo = match self.bus.load(self.current_pc.wrapping_add(1)) {
            Err(e) => {
                return Err(e);
            },
            Ok(v) => v,
        };
        let nn: u16 = (hi as u16) * 256 + lo as u16;
        let n: u8 = lo;
        if op < 0x10 {
            self.op_0(op, n, nn)
        } else if op < 0x20 {
            self.op_1(op, n, nn)
        } else if op < 0x30 {
            self.op_2(op, n, nn)
        } else if op < 0x40 {
            self.op_3(op, n, nn)
        } else if op < 0x80 {
            self.op_ld(op)
        } else if op < 0xC0 {
            self.op_alu_blk(op)
        } else if op < 0xD0 {
            self.op_c(op, n, nn)
        } else if op < 0xE0 {
            self.op_d(op, n, nn)
        } else if op < 0xF0 {
            self.op_e(op, n, nn)
        } else {
            self.op_f(op, n, nn)
        }
    }

    /// Runs one fetch-decode-execute step.  While halted with no enabled
    /// pending interrupt, only cycles elapse; otherwise the opcode at the
    /// program counter executes, advancing registers, memory, the program
    /// counter and the cycle counter as the step function specifies.  An
    /// opcode missing from both tables, or an access to an unmodeled
    /// register, is a fatal error carrying the faulting opcode and address.
    pub fn run_next_instruction(&mut self) -> (r: Result<(), EmuError>)
        requires
            cpu_wf(old(self)@),
        ensures
            step_matches(r, final(self)@, spec_step(old(self)@)),
            cpu_wf(final(self)@),
    {
        if self.halted {
            if !self.bus.irq_ready() {
                self.bus.add_to_clock(4);
                return Ok(());
            }
            self.halted = false;
        }
        let op = match self.bus.load(self.pc) {
            Err(e) => {
                return Err(e);
            },
            Ok(v) => v,
        };
        self.current_pc = self.pc;
        self.pc = self.pc.wrapping_add(1);
        proof {
            assert(self.pc == w16(self.current_pc + 1));
        }
        self.decode(op)
    }

    /// A core around an injected bus, in the architecturally defined
    /// post-boot state: execution starts at 0x0100 with the stack at the
    /// top of high RAM and interrupts enabled.
    pub fn new(bus: Bus) -> (r: Cpu)
        requires
            bus_wf(bus@),
        ensures
            r@ == (CpuV {
                bus: bus@,
                pc: 0x0100,
                sp: 0xFFFE,
                register: Register {
                    a: 0x01,
                    b: 0x00,
                    c: 0x13,
                    d: 0x00,
                    e: 0xD8,
                    f: 0xB0,
                    h: 0x01,
                    l: 0x4D,
                    flag: Flag { z: 1, n: 0, h: 1, c: 1 },
                },
                current_pc: 0x0,
                ime: true,
                di: 0,
                ei: 0,
                halted: false,
            }),
            cpu_wf(r@),
    {
        Cpu {
            bus,

            pc: 0x0100,
            sp: 0xFFFE,

            register: Register::new(),

            current_pc: 0x0,

            ime: true,

            di: 0,
            ei: 0,

            halted: false,
        }
    }

    /// The address the current (most recently fetched) instruction was
    /// fetched from, for debuggers.
    pub fn get_pc(&self) -> (r: u16)
        ensures
            r == self@.current_pc,
    {
        self.current_pc
    }

    /// Advances the delayed interrupt-master-enable countdowns; the driver
    /// calls this once per instruction, before the instruction runs.
    pub fn update_ime(&mut self)
        ensures
            final(self)@ == spec_update_ime(old(self)@),
    {
        if self.di == 2 {
            self.di = 1;
        } else if self.di == 1 {
            self.ime = false;
            self.di = 0;
        } else {
            self.di = 0;
        }
        if self.ei == 2 {
            self.ei = 1;
        } else if self.ei == 1 {
            self.ime = true;
            self.ei = 0;
        } else {
            self.ei = 0;
        }
    }

    /// Paints the two probe pixels of the frame.
    pub fn test_draw(&mut self)
        requires
            cpu_wf(old(self)@),
        ensures
            final(self)@ == (CpuV {
                bus: BusV {
                    gui: crate::gui::GuiV {
                        data: old(self)@.bus.gui.data.update(
                            crate::gui::pixel_index(0, 0, 0),
                            0xFFu8,
                        ).update(crate::gui::pixel_index(0, 0, 1), 0x00u8).update(
                            crate::gui::pixel_index(0, 0, 2),
                            0x00u8,
                        ).update(crate::gui::pixel_index(80, 72, 0), 0xFFu8).update(
                            crate::gui::pixel_index(80, 72, 1),
                            0x00u8,
                        ).update(crate::gui::pixel_index(80, 72, 2), 0x00u8),
                        ..old(self)@.bus.gui
                    },
                    ..old(self)@.bus
                },
                ..old(self)@
            }),
            cpu_wf(final(self)@),
    {
        self.bus.gui.test_draw();
    }

    /// The frame pixel at (x, y) packed as 0xRRGGBB, for presentation.
    pub fn get_data_gui(&self, x: usize, y: usize) -> (r: u32)
        requires
            cpu_wf(self@),
            x < crate::gui::FRAME_WIDTH,
            y < crate::gui::FRAME_HEIGHT,
        ensures
            r == self@.bus.gui.data[crate::gui::pixel_index(x as int, y as int, 0)] * 0x10000
                + self@.bus.gui.data[crate::gui::pixel_index(x as int, y as int, 1)] * 0x100
                + self@.bus.gui.data[crate::gui::pixel_index(x as int, y as int, 2)],
    {
        self.bus.gui.get_data(x, y)
    }

    /// Sets the architecturally defined post-boot register values and
    /// writes the documented power-up values into the memory-mapped
    /// registers.  Every address written here has a modeled device, so
    /// every write lands.
    pub fn power_up(&mut self)
        requires
            cpu_wf(old(self)@),
        ensures
            final(self)@ == (CpuV {
                register: Register {
                    a: 0x01,
                    b: 0x00,
                    c: 0x13,
                    d: 0x00,
                    e: 0xD8,
                    f: 0xB0,
                    h: 0x01,
                    l: 0x4D,
                    flag: Flag { z: 1, n: 0, h: 1, c: 1 },
                },
                sp: 0xFFFE,
                bus: spec_power_up_bus(old(self)@.bus),
                ..old(self)@
            }),
            cpu_wf(final(self)@),
    {
        self.register.set_af(0x01B0);

        self.sp = 0xFFFE;

        self.register.set_bc(0x0013);
        self.register.set_de(0x00D8);
        self.register.set_hl(0x014D);

        self.power_up_timer();
        self.power_up_tone();
        self.power_up_mixer();
        self.power_up_video();
    }

    fn power_up_timer(&mut self)
        requires
            bus_wf(old(self)@.bus),
        ensures
            final(self)@ == (CpuV { bus: pu_timer(old(self)@.bus), ..old(self)@ }),
            bus_wf(final(self)@.bus),
    {
        let _ = self.bus.store(0xFF05, 0x00);
        let _ = self.bus.store(0xFF06, 0x00);
        let _ = self.bus.store(0xFF07, 0x00);
        let _ = self.bus.store(0xFF10, 0x80);
        let _ = self.bus.store(0xFF11, 0xBF);
        let _ = self.bus.store(0xFF12, 0xF3);
        let _ = self.bus.store(0xFF14, 0xBF);
        let _ = self.bus.store(0xFF16, 0x3F);
    }

    fn power_up_tone(&mut self)
        requires
            bus_wf(old(self)@.bus),
        ensures
            final(self)@ == (CpuV { bus: pu_tone(old(self)@.bus), ..old(self)@ }),
            bus_wf(final(self)@.bus),
    {
        let _ = self.bus.store(0xFF17, 0x00);
        let _ = self.bus.store(0xFF19, 0xBF);
        let _ = self.bus.store(0xFF1A, 0x7F);
        let _ = self.bus.store(0xFF1B, 0xFF);
        let _ = self.bus.store(0xFF1C, 0x9F);
        let _ = self.bus.store(0xFF1E, 0xBF);
        let _ = self.bus.store(0xFF20, 0xFF);
        let _ = self.bus.store(0xFF21, 0x00);
    }

    fn power_up_mixer(&mut self)
        requires
            bus_wf(old(self)@.bus),
        ensures
            final(self)@ == (CpuV { bus: pu_mixer(old(self)@.bus), ..old(self)@ }),
            bus_wf(final(self)@.bus),
    {
        let _ = self.bus.store(0xFF22, 0x00);
        let _ = self.bus.store(0xFF23, 0xBF);
        let _ = self.bus.store(0xFF24, 0x77);
        let _ = self.bus.store(0xFF25, 0xF3);
        let _ = self.bus.store(0xFF26, 0xF1);
        let _ = self.bus.store(0xFF40, 0x91);
        let _ = self.bus.store(0xFF42, 0x00);
    }

    fn power_up_video(&mut self)
        requires
            bus_wf(old(self)@.bus),
        ensures
            final(self)@ == (CpuV { bus: pu_video(old(self)@.bus), ..old(self)@ }),
            bus_wf(final(self)@.bus),
    {
        let _ = self.bus.store(0xFF43, 0x00);
        let _ = self.bus.store(0xFF45, 0x00);
        let _ = self.bus.store(0xFF47, 0xFC);
        let _ = self.bus.store(0xFF48, 0xFF);
        let _ = self.bus.store(0xFF49, 0xFF);
        let _ = self.bus.store(0xFF4A, 0x00);
        let _ = self.bus.store(0xFF4B, 0x00);
        let _ = self.bus.store(0xFFFF, 0x00);
    }
}

/// Power-up writes: the timer registers and the first tone channel.
pub open spec fn pu_timer(b: BusV) -> BusV {
    let b = st_keep(b, 0xFF05, 0x00);
    let b = st_keep(b, 0xFF06, 0x00);
    let b = st_keep(b, 0xFF07, 0x00);
    let b = st_keep(b, 0xFF10, 0x80);
    let b = st_keep(b, 0xFF11, 0xBF);
    let b = st_keep(b, 0xFF12, 0xF3);
    let b = st_keep(b, 0xFF14, 0xBF);
    st_keep(b, 0xFF16, 0x3F)
}

/// Power-up writes: the remaining tone, wave and noise channel registers.
pub open spec fn pu_tone(b: BusV) -> BusV {
    let b = st_keep(b, 0xFF17, 0x00);
    let b = st_keep(b, 0xFF19, 0xBF);
    let b = st_keep(b, 0xFF1A, 0x7F);
    let b = st_keep(b, 0xFF1B, 0xFF);
    let b = st_keep(b, 0xFF1C, 0x9F);
    let b = st_keep(b, 0xFF1E, 0xBF);
    let b = st_keep(b, 0xFF20, 0xFF);
    st_keep(b, 0xFF21, 0x00)
}

/// Power-up writes: the noise and mixer registers and the LCD control.
pub open spec fn pu_mixer(b: BusV) -> BusV {
    let b = st_keep(b, 0xFF22, 0x00);
    let b = st_keep(b, 0xFF23, 0xBF);
    let b = st_keep(b, 0xFF24, 0x77);
    let b = st_keep(b, 0xFF25, 0xF3);
    let b = st_keep(b, 0xFF26, 0xF1);
    let b = st_keep(b, 0xFF40, 0x91);
    st_keep(b, 0xFF42, 0x00)
}

/// Power-up writes: the rest of the video registers and the
/// interrupt-enable byte.
pub open spec fn pu_video(b: BusV) -> BusV {
    let b = st_keep(b, 0xFF43, 0x00);
    let b = st_keep(b, 0xFF45, 0x00);
    let b = st_keep(b, 0xFF47, 0xFC);
    let b = st_keep(b, 0xFF48, 0xFF);
    let b = st_keep(b, 0xFF49, 0xFF);
    let b = st_keep(b, 0xFF4A, 0x00);
    let b = st_keep(b, 0xFF4B, 0x00);
    st_keep(b, 0xFFFF, 0x00)
}

/// The power-up register writes, as one deterministic chain.
pub open spec fn spec_power_up_bus(b: BusV) -> BusV {
    pu_video(pu_mixer(pu_tone(pu_timer(b))))
}

/// Stack round trip: pushing a 16-bit value and popping it back yields the
/// value unchanged and leaves the stack pointer where it started, whenever
/// the two stack slots lie in working RAM.
pub proof fn lemma_stack_roundtrip(c: CpuV, v: u16)
    requires
        cpu_wf(c),
        0xC002 <= c.sp <= 0xE000,
    ensures
        sp_push(c, v) is Ok,
        sp_pop(sp_push(c, v)->Ok_0) is Ok,
        sp_pop(sp_push(c, v)->Ok_0)->Ok_0.1 == v,
        sp_pop(sp_push(c, v)->Ok_0)->Ok_0.0.sp == c.sp,
{
    let sp2 = w16(c.sp - 2);
    assert(sp2 == c.sp - 2);
    crate::bus::lemma_store16_roundtrip(c.bus, sp2, v);
    let c2 = sp_push(c, v)->Ok_0;
    assert(w16(sp2 + 1) == sp2 + 1);
    assert(sp_pop(c2)->Ok_0.1 == (v as int / 256) * 256 + (v as int % 256));
    assert(w16(sp2 + 2) == c.sp);
}

} // verus!
