use vstd::prelude::*;

verus! {

/// Load-time failures of a cartridge image.  They are reported before any
/// execution begins; no partially constructed controller escapes.
#[derive(Clone, Copy, PartialEq, Eq, Structural, Debug)]
pub enum CartridgeError {
    /// The image is shorter than a complete header.
    ImageTooSmall,
    /// The header checksum byte does not match the header bytes.
    InvalidChecksum,
    /// The header's banking-type byte names an unsupported controller.
    UnsupportedType,
}

/// A cartridge with no bank switching: reads index the image directly and
/// the RAM window is absent (reads yield 0, writes are discarded).
pub struct MBC0 {
    rom: Vec<u8>,
}

/// The single-bank-switching controller state, as decoded from control
/// writes into the ROM address window.
pub struct MBC1 {
    rom: Vec<u8>,
    ram: Vec<u8>,
    ram_on: bool,
    ram_mode: bool,
    rom_bank: usize,
    ram_bank: usize,
}

/// The mathematical state of a single-bank-switching controller.
#[verifier::ext_equal]
pub struct MBC1V {
    pub rom: Seq<u8>,
    pub ram: Seq<u8>,
    pub ram_on: bool,
    pub ram_mode: bool,
    pub rom_bank: usize,
    pub ram_bank: usize,
}

/// A cartridge bank controller of either supported kind.
pub enum MBC {
    MBC0(MBC0),
    MBC1(MBC1),
}

/// The mathematical state of a bank controller.
#[verifier::ext_equal]
pub enum MBCV {
    MBC0(Seq<u8>),
    MBC1(MBC1V),
}

impl View for MBC0 {
    type V = Seq<u8>;

    closed spec fn view(&self) -> Seq<u8> {
        self.rom@
    }
}

impl View for MBC1 {
    type V = MBC1V;

    closed spec fn view(&self) -> MBC1V {
        MBC1V {
            rom: self.rom@,
            ram: self.ram@,
            ram_on: self.ram_on,
            ram_mode: self.ram_mode,
            rom_bank: self.rom_bank,
            ram_bank: self.ram_bank,
        }
    }
}

impl View for MBC {
    type V = MBCV;

    open spec fn view(&self) -> MBCV {
        match self {
            MBC::MBC0(c) => MBCV::MBC0(c@),
            MBC::MBC1(c) => MBCV::MBC1(c@),
        }
    }
}

/// Bank-selection fields stay in the ranges the control writes can produce.
pub open spec fn mbc_wf(m: MBCV) -> bool {
    match m {
        MBCV::MBC0(_) => true,
        MBCV::MBC1(c) => 1 <= c.rom_bank <= 31 && c.ram_bank <= 3,
    }
}

/// A read of the cartridge-relative ROM address 0x0000..=0x7FFF.  Below the
/// bank threshold the fixed bank 0 is read; at or above it the selected
/// bank's window is read.  A read past the image yields 0xFF, as open bus
/// lines do.
pub open spec fn spec_readrom(m: MBCV, addr: u16) -> u8 {
    match m {
        MBCV::MBC0(rom) => {
            if (addr as int) < rom.len() {
                rom[addr as int]
            } else {
                0xFF
            }
        },
        MBCV::MBC1(c) => {
            if addr < 0x4000 {
                if (addr as int) < c.rom.len() {
                    c.rom[addr as int]
                } else {
                    0xFF
                }
            } else {
                let idx = c.rom_bank * 0x4000 + (addr as int) % 0x4000;
                if idx < c.rom.len() {
                    c.rom[idx]
                } else {
                    0xFF
                }
            }
        },
    }
}

/// A control write into the ROM address window.  For the no-banking kind it
/// is ignored.  For the banked kind the low range gates the RAM window on
/// the 0x0A sentinel, the bank-select ranges set the ROM bank (never 0) and
/// the RAM bank, and the high range selects the banking mode.
pub open spec fn spec_writerom(m: MBCV, addr: u16, value: u8) -> MBCV {
    match m {
        MBCV::MBC0(rom) => MBCV::MBC0(rom),
        MBCV::MBC1(c) => {
            if addr < 0x2000 {
                MBCV::MBC1(MBC1V { ram_on: value == 0x0A, ..c })
            } else if addr < 0x4000 {
                let bank = if value as int % 32 == 0 {
                    1
                } else {
                    value as int % 32
                };
                MBCV::MBC1(MBC1V { rom_bank: bank as usize, ..c })
            } else if addr < 0x6000 {
                MBCV::MBC1(MBC1V { ram_bank: (value as int % 4) as usize, ..c })
            } else {
                MBCV::MBC1(MBC1V { ram_mode: value == 0x01, ..c })
            }
        },
    }
}

/// The index into the banked RAM for a window-relative offset: the selected
/// bank participates only in RAM-banking mode.
pub open spec fn mbc1_ram_index(c: MBC1V, offset: u16) -> int {
    if c.ram_mode {
        c.ram_bank * 0x2000 + (offset as int) % 0x2000
    } else {
        (offset as int) % 0x2000
    }
}

/// A read of the cartridge RAM window at a window-relative offset.  With no
/// banking, or while the RAM window is disabled, or past the allocated RAM,
/// the read yields 0.
pub open spec fn spec_readram(m: MBCV, offset: u16) -> u8 {
    match m {
        MBCV::MBC0(_) => 0,
        MBCV::MBC1(c) => {
            if !c.ram_on {
                0
            } else {
                let idx = mbc1_ram_index(c, offset);
                if idx < c.ram.len() {
                    c.ram[idx]
                } else {
                    0
                }
            }
        },
    }
}

/// A write into the cartridge RAM window.  It is discarded with no banking,
/// while the RAM window is disabled, or past the allocated RAM.
pub open spec fn spec_writeram(m: MBCV, offset: u16, value: u8) -> MBCV {
    match m {
        MBCV::MBC0(rom) => MBCV::MBC0(rom),
        MBCV::MBC1(c) => {
            if !c.ram_on {
                MBCV::MBC1(c)
            } else {
                let idx = mbc1_ram_index(c, offset);
                if idx < c.ram.len() {
                    MBCV::MBC1(MBC1V { ram: c.ram.update(idx, value), ..c })
                } else {
                    MBCV::MBC1(c)
                }
            }
        },
    }
}

/// The allocated cartridge-RAM size for a header RAM-size code.
pub open spec fn spec_ram_size(v: u8) -> int {
    if v == 1 {
        2048int
    } else if v == 2 {
        8192int
    } else if v == 3 {
        32768int
    } else if v == 4 {
        131072int
    } else {
        0int
    }
}

/// The RAM a banked cartridge allocates: only the banking type that carries
/// RAM allocates any, sized by the header RAM-size code.
pub open spec fn spec_mbc1_ram_len(data: Seq<u8>) -> int {
    if data[0x0147] == 2 {
        spec_ram_size(data[0x0149])
    } else {
        0
    }
}

/// The header checksum accumulated over bytes 0x134..i: each byte and one
/// more are subtracted, wrapping in a byte.
pub open spec fn checksum_upto(data: Seq<u8>, i: int) -> int
    decreases i,
{
    if i <= 0x134 {
        0
    } else {
        (checksum_upto(data, i - 1) - data[i - 1] - 1) % 256
    }
}

/// The two's-complement header checksum over bytes 0x134..0x14D.
pub open spec fn header_checksum(data: Seq<u8>) -> int {
    checksum_upto(data, 0x14D)
}

/// The controller a validated image yields, or the load-time error.
pub open spec fn spec_get_mbc(data: Seq<u8>) -> Result<MBCV, CartridgeError> {
    if data.len() < 0x14E {
        Err(CartridgeError::ImageTooSmall)
    } else if data[0x14D] != header_checksum(data) {
        Err(CartridgeError::InvalidChecksum)
    } else if data[0x0147] == 0 {
        Ok(MBCV::MBC0(data))
    } else if 1 <= data[0x0147] <= 3 {
        Ok(
            MBCV::MBC1(
                MBC1V {
                    rom: data,
                    ram: Seq::new(spec_mbc1_ram_len(data) as nat, |i: int| 0u8),
                    ram_on: false,
                    ram_mode: false,
                    rom_bank: 1,
                    ram_bank: 0,
                },
            ),
        )
    } else {
        Err(CartridgeError::UnsupportedType)
    }
}

fn zero_vec(n: usize) -> (r: Vec<u8>)
    ensures
        r@ == Seq::new(n as nat, |i: int| 0u8),
        r@.len() == n,
{
    let mut data: Vec<u8> = Vec::new();
    let mut i: usize = 0;
    while i < n
        invariant
            i <= n,
            data@.len() == i,
            forall|j: int| 0 <= j < i ==> data@[j] == 0u8,
        decreases n - i,
    {
        data.push(0);
        i = i + 1;
    }
    proof {
        assert(data@ =~= Seq::new(n as nat, |i: int| 0u8));
    }
    data
}

impl MBC0 {
    pub fn new(data: Vec<u8>) -> (r: MBC0)
        ensures
            r@ == data@,
    {
        MBC0 { rom: data }
    }

    pub fn readrom(&self, address: u16) -> (r: u8)
        requires
            address <= 0x7FFF,
        ensures
            r == spec_readrom(MBCV::MBC0(self@), address),
    {
        if (address as usize) < self.rom.len() {
            self.rom[address as usize]
        } else {
            0xFF
        }
    }
}

impl MBC1 {
    pub fn new(data: Vec<u8>) -> (r: MBC1)
        requires
            data@.len() >= 0x14E,
        ensures
            r@ == (MBC1V {
                rom: data@,
                ram: Seq::new(spec_mbc1_ram_len(data@) as nat, |i: int| 0u8),
                ram_on: false,
                ram_mode: false,
                rom_bank: 1,
                ram_bank: 0,
            }),
            mbc_wf(MBCV::MBC1(r@)),
    {
        let size: usize = if data[0x0147] == 2 {
            ram_size(data[0x0149])
        } else {
            0
        };

        MBC1 {
            rom: data,
            ram: zero_vec(size),
            ram_on: false,
            ram_mode: false,
            rom_bank: 1,
            ram_bank: 0,
        }
    }

    pub fn readrom(&self, address: u16) -> (r: u8)
        requires
            address <= 0x7FFF,
            mbc_wf(MBCV::MBC1(self@)),
        ensures
            r == spec_readrom(MBCV::MBC1(self@), address),
    {
        if address < 0x4000 {
            if (address as usize) < self.rom.len() {
                self.rom[address as usize]
            } else {
                0xFF
            }
        } else {
            let idx: usize = self.rom_bank * 0x4000 + (address as usize) % 0x4000;
            if idx < self.rom.len() {
                self.rom[idx]
            } else {
                0xFF
            }
        }
    }

    pub fn writerom(&mut self, address: u16, value: u8)
        requires
            address <= 0x7FFF,
        ensures
            MBCV::MBC1(final(self)@) == spec_writerom(MBCV::MBC1(old(self)@), address, value),
            mbc_wf(MBCV::MBC1(old(self)@)) ==> mbc_wf(MBCV::MBC1(final(self)@)),
    {
        if address < 0x2000 {
            self.ram_on = value == 0x0A;
        } else if address < 0x4000 {
            let bank: usize = (value as usize) % 32;
            self.rom_bank = if bank == 0 {
                1
            } else {
                bank
            };
        } else if address < 0x6000 {
            self.ram_bank = (value as usize) % 4;
        } else {
            self.ram_mode = value == 0x01;
        }
    }

    pub fn readram(&self, offset: u16) -> (r: u8)
        requires
            mbc_wf(MBCV::MBC1(self@)),
        ensures
            r == spec_readram(MBCV::MBC1(self@), offset),
    {
        if !self.ram_on {
            return 0;
        }
        let idx: usize = if self.ram_mode {
            self.ram_bank * 0x2000 + (offset as usize) % 0x2000
        } else {
            (offset as usize) % 0x2000
        };
        if idx < self.ram.len() {
            self.ram[idx]
        } else {
            0
        }
    }

    pub fn writeram(&mut self, offset: u16, value: u8)
        requires
            mbc_wf(MBCV::MBC1(old(self)@)),
        ensures
            MBCV::MBC1(final(self)@) == spec_writeram(MBCV::MBC1(old(self)@), offset, value),
            mbc_wf(MBCV::MBC1(final(self)@)),
    {
        if !self.ram_on {
            return ;
        }
        let idx: usize = if self.ram_mode {
            self.ram_bank * 0x2000 + (offset as usize) % 0x2000
        } else {
            (offset as usize) % 0x2000
        };
        if idx < self.ram.len() {
            self.ram.set(idx, value);
        }
    }
}

impl MBC {
    pub fn readrom(&self, address: u16) -> (r: u8)
        requires
            address <= 0x7FFF,
            mbc_wf(self@),
        ensures
            r == spec_readrom(self@, address),
    {
        match self {
            MBC::MBC0(c) => c.readrom(address),
            MBC::MBC1(c) => c.readrom(address),
        }
    }

    pub fn writerom(&mut self, address: u16, value: u8)
        requires
            address <= 0x7FFF,
            mbc_wf(old(self)@),
        ensures
            final(self)@ == spec_writerom(old(self)@, address, value),
            mbc_wf(final(self)@),
    {
        match self {
            MBC::MBC0(_) => {},
            MBC::MBC1(c) => c.writerom(address, value),
        }
    }

    pub fn readram(&self, offset: u16) -> (r: u8)
        requires
            mbc_wf(self@),
        ensures
            r == spec_readram(self@, offset),
    {
        match self {
            MBC::MBC0(_) => 0,
            MBC::MBC1(c) => c.readram(offset),
        }
    }

    pub fn writeram(&mut self, offset: u16, value: u8)
        requires
            mbc_wf(old(self)@),
        ensures
            final(self)@ == spec_writeram(old(self)@, offset, value),
            mbc_wf(final(self)@),
    {
        match self {
            MBC::MBC0(_) => {},
            MBC::MBC1(c) => c.writeram(offset, value),
        }
    }
}

/// The allocated cartridge-RAM size for a header RAM-size code; codes
/// outside the table allocate none.
pub fn ram_size(v: u8) -> (r: usize)
    ensures
        r == spec_ram_size(v),
{
    if v == 1 {
        2 * 1024
    } else if v == 2 {
        8 * 1024
    } else if v == 3 {
        32 * 1024
    } else if v == 4 {
        128 * 1024
    } else {
        0
    }
}

/// The image size for a header ROM-size code 0..=6.
pub fn rom_size(v: u8) -> (r: usize)
    requires
        v <= 6,
    ensures
        v == 0 ==> r == 32 * 1024,
        v == 1 ==> r == 64 * 1024,
        v == 2 ==> r == 128 * 1024,
        v == 3 ==> r == 256 * 1024,
        v == 4 ==> r == 512 * 1024,
        v == 5 ==> r == 1024 * 1024,
        v == 6 ==> r == 2 * 1024 * 1024,
{
    if v == 0 {
        32 * 1024
    } else if v == 1 {
        64 * 1024
    } else if v == 2 {
        128 * 1024
    } else if v == 3 {
        256 * 1024
    } else if v == 4 {
        512 * 1024
    } else if v == 5 {
        1024 * 1024
    } else {
        2 * 1024 * 1024
    }
}

/// Validates the header checksum: the byte at 0x14D must equal the
/// two's-complement sum over bytes 0x134..0x14D.
pub fn check_checksum(data: &Vec<u8>) -> (r: Result<(), CartridgeError>)
    requires
        data@.len() >= 0x14E,
    ensures
        r is Ok <==> data@[0x14D] == header_checksum(data@),
        r is Err ==> r == Err::<(), CartridgeError>(CartridgeError::InvalidChecksum),
{
    let mut value: u8 = 0;
    let mut i: usize = 0x134;
    while i < 0x14D
        invariant
            0x134 <= i <= 0x14D,
            data@.len() >= 0x14E,
            value == checksum_upto(data@, i as int),
        decreases 0x14D - i,
    {
        let d: u8 = data[i];
        value = ((value as u32 + 512 - d as u32 - 1) % 256) as u8;
        i = i + 1;
    }
    if data[0x14D] == value {
        Ok(())
    } else {
        Err(CartridgeError::InvalidChecksum)
    }
}

/// Builds the bank controller for a raw cartridge image.  A short image,
/// a mismatched header checksum, or an unsupported banking-type byte is
/// rejected here, before any execution.
pub fn get_mbc(data: Vec<u8>) -> (r: Result<MBC, CartridgeError>)
    ensures
        (match r {
            Ok(m) => spec_get_mbc(data@) is Ok && m@ == spec_get_mbc(data@)->Ok_0 && mbc_wf(m@),
            Err(e) => spec_get_mbc(data@) == Err::<MBCV, CartridgeError>(e),
        }),
{
    if data.len() < 0x14E {
        return Err(CartridgeError::ImageTooSmall);
    }
    match check_checksum(&data) {
        Ok(_) => {},
        Err(e) => {
            return Err(e);
        },
    }
    let kind: u8 = data[0x0147];
    if kind == 0 {
        Ok(MBC::MBC0(MBC0::new(data)))
    } else if kind <= 3 {
        Ok(MBC::MBC1(MBC1::new(data)))
    } else {
        Err(CartridgeError::UnsupportedType)
    }
}

} // verus!
