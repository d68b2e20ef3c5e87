use vstd::prelude::*;

verus! {

/// The four condition flags, each held as 0 or 1.  They are the authoritative
/// copy; the packed `f` register mirrors them in bits 7 (zero), 6 (subtract),
/// 5 (half-carry) and 4 (carry), with the low nibble always 0.
#[derive(Clone, Copy, PartialEq, Eq, Structural, Debug)]
pub struct Flag {
    pub z: u8,
    pub n: u8,
    pub h: u8,
    pub c: u8,
}

/// The eight 8-bit registers.  The 16-bit pairs af/bc/de/hl are pure
/// derivations of these bytes and are never stored separately.
#[derive(Clone, Copy, PartialEq, Eq, Structural, Debug)]
pub struct Register {
    pub a: u8,
    pub b: u8,
    pub c: u8,
    pub d: u8,
    pub e: u8,
    pub f: u8,
    pub h: u8,
    pub l: u8,

    pub flag: Flag,
}

pub open spec fn flag_wf(fl: Flag) -> bool {
    fl.z <= 1 && fl.n <= 1 && fl.h <= 1 && fl.c <= 1
}

/// The flag bits packed into the high nibble of the `f` register.
pub open spec fn pack_flags(fl: Flag) -> int {
    fl.z * 128 + fl.n * 64 + fl.h * 32 + fl.c * 16
}

/// A register file is well formed when the flags are 0/1 valued and the `f`
/// byte is exactly their packed form (so its low nibble is 0).
pub open spec fn reg_wf(r: Register) -> bool {
    flag_wf(r.flag) && r.f == pack_flags(r.flag)
}

/// The 16-bit value formed by a high and a low byte.
pub open spec fn pair16(hi: u8, lo: u8) -> int {
    hi * 256 + lo
}

pub open spec fn high8(v: u16) -> int {
    v as int / 256
}

pub open spec fn low8(v: u16) -> int {
    v as int % 256
}

/// The flags decoded from the high nibble of a 16-bit value's low byte.
pub open spec fn flags_of_bits(v: u16) -> Flag {
    Flag {
        z: ((v / 128) % 2) as u8,
        n: ((v / 64) % 2) as u8,
        h: ((v / 32) % 2) as u8,
        c: ((v / 16) % 2) as u8,
    }
}

pub open spec fn spec_set_af(r: Register, v: u16) -> Register {
    Register {
        a: (v / 256) as u8,
        f: (pack_flags(flags_of_bits(v))) as u8,
        flag: flags_of_bits(v),
        ..r
    }
}

pub open spec fn spec_set_bc(r: Register, v: u16) -> Register {
    Register { b: (v / 256) as u8, c: (v % 256) as u8, ..r }
}

pub open spec fn spec_set_de(r: Register, v: u16) -> Register {
    Register { d: (v / 256) as u8, e: (v % 256) as u8, ..r }
}

pub open spec fn spec_set_hl(r: Register, v: u16) -> Register {
    Register { h: (v / 256) as u8, l: (v % 256) as u8, ..r }
}

impl Flag {
    /// The power-up flag values (packed form 0xB0).
    pub fn new() -> (r: Flag)
        ensures
            r == (Flag { z: 1, n: 0, h: 1, c: 1 }),
    {
        Flag { z: 1, n: 0, h: 1, c: 1 }
    }
}

impl Register {
    /// The architecturally defined post-boot register values.
    pub fn new() -> (r: Register)
        ensures
            r == (Register {
                a: 0x01,
                b: 0x00,
                c: 0x13,
                d: 0x00,
                e: 0xD8,
                f: 0xB0,
                h: 0x01,
                l: 0x4D,
                flag: Flag { z: 1, n: 0, h: 1, c: 1 },
            }),
            reg_wf(r),
    {
        Register {
            a: 0x01,
            b: 0x00,
            c: 0x13,
            d: 0x00,
            e: 0xD8,
            f: 0xB0,
            h: 0x01,
            l: 0x4D,

            flag: Flag::new(),
        }
    }

    pub fn af(&self) -> (r: u16)
        ensures
            r == pair16(self.a, self.f),
    {
        (self.a as u16) * 256 + (self.f as u16)
    }

    pub fn bc(&self) -> (r: u16)
        ensures
            r == pair16(self.b, self.c),
    {
        (self.b as u16) * 256 + (self.c as u16)
    }

    pub fn de(&self) -> (r: u16)
        ensures
            r == pair16(self.d, self.e),
    {
        (self.d as u16) * 256 + (self.e as u16)
    }

    pub fn hl(&self) -> (r: u16)
        ensures
            r == pair16(self.h, self.l),
    {
        (self.h as u16) * 256 + (self.l as u16)
    }

    /// Stores a 16-bit value into the a/f pair.  The flag register keeps only
    /// the high nibble of the low byte: its low nibble is always 0.
    pub fn set_af(&mut self, value: u16)
        ensures
            *final(self) == spec_set_af(*old(self), value),
            reg_wf(*final(self)),
    {
        self.a = (value / 256) as u8;
        let z: u8 = ((value / 128) % 2) as u8;
        let n: u8 = ((value / 64) % 2) as u8;
        let h: u8 = ((value / 32) % 2) as u8;
        let c: u8 = ((value / 16) % 2) as u8;
        self.flag = Flag { z, n, h, c };
        self.f = z * 128 + n * 64 + h * 32 + c * 16;
    }

    pub fn set_bc(&mut self, value: u16)
        ensures
            *final(self) == spec_set_bc(*old(self), value),
    {
        self.b = (value / 256) as u8;
        self.c = (value % 256) as u8;
    }

    pub fn set_de(&mut self, value: u16)
        ensures
            *final(self) == spec_set_de(*old(self), value),
    {
        self.d = (value / 256) as u8;
        self.e = (value % 256) as u8;
    }

    pub fn set_hl(&mut self, value: u16)
        ensures
            *final(self) == spec_set_hl(*old(self), value),
    {
        self.h = (value / 256) as u8;
        self.l = (value % 256) as u8;
    }
}

/// Register-pair round trip: writing a 16-bit value to bc (likewise de, hl)
/// and reading the pair back yields the value unchanged.
pub proof fn lemma_pair_roundtrip(r: Register, v: u16)
    ensures
        pair16(spec_set_bc(r, v).b, spec_set_bc(r, v).c) == v,
        pair16(spec_set_de(r, v).d, spec_set_de(r, v).e) == v,
        pair16(spec_set_hl(r, v).h, spec_set_hl(r, v).l) == v,
{
}

/// Register-pair round trip for af: the flag register's low nibble is forced
/// to 0, so reading the pair back yields the value with its low four bits
/// masked off.
pub proof fn lemma_af_roundtrip(r: Register, v: u16)
    ensures
        pair16(spec_set_af(r, v).a, spec_set_af(r, v).f) == v - v % 16,
{
    assert((v / 128) % 2 * 128 + (v / 64) % 2 * 64 + (v / 32) % 2 * 32 + (v / 16) % 2 * 16 == (v
        % 256) / 16 * 16) by (bit_vector);
    assert(v / 256 * 256 + (v % 256) / 16 * 16 == v - v % 16) by (bit_vector);
}

} // verus!
