use vstd::prelude::*;

verus! {

/// The serial port stub: the data and control registers, with the transfer
/// and clock-source bits of the control byte decoded.
#[derive(Clone, Copy, PartialEq, Eq, Structural, Debug)]
pub struct Serial {
    pub data: u8,
    pub control: u8,

    /// Control bit 7: a transfer is in progress.
    pub transfer_flag: bool,
    /// Control bit 0: the internal clock drives the transfer.
    pub clock: bool,
}

impl Serial {
    pub fn new() -> (r: Serial)
        ensures
            r == (Serial { data: 0, control: 0, transfer_flag: false, clock: false }),
    {
        Serial {
            data: 0,
            control: 0,

            transfer_flag: false,

            clock: false,
        }
    }
}

} // verus!
