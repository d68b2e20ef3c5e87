use vstd::prelude::*;

pub mod bus;
pub mod clock;
pub mod command;
pub mod debugger;
pub mod cpu;
pub mod gui;
pub mod mbc;
pub mod interrupt;
pub mod joypad;
pub mod ram;
pub mod register;
pub mod rom;
pub mod serial;
pub mod sound;

verus! {

/// Fatal runtime faults of the emulated machine.  Loading or storing a byte
/// at an address whose backing device is not modeled, and fetching an opcode
/// that is absent from the primary or the extended table, terminate the run;
/// the failing address (and opcode) are carried for diagnostics.
#[derive(Clone, Copy, PartialEq, Eq, Structural, Debug)]
pub enum EmuError {
    /// A load at an address whose device is not modeled.
    UnmodeledLoad(u16),
    /// A store at an address whose device is not modeled.
    UnmodeledStore(u16),
    /// An opcode absent from the primary table, with its fetch address.
    UnknownOpcode(u8, u16),
    /// An opcode absent from the extended table, with its fetch address.
    UnknownExtOpcode(u8, u16),
}

} // verus!
