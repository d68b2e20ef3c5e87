use vstd::prelude::*;

verus! {

/// The joypad state.  Key flags are active-low: true means released.  The
/// selector decides which nibble a read of the joypad register returns.
#[derive(Clone, Copy, PartialEq, Eq, Structural, Debug)]
pub struct Joypad {
    /// false selects the direction keys, true the action buttons.
    pub is_direction: bool,

    pub down: bool,
    pub up: bool,
    pub left: bool,
    pub right: bool,

    pub start: bool,
    pub select: bool,
    pub b: bool,
    pub a: bool,
}

/// The nibble a read of the joypad register returns: the direction keys when
/// the direction group is selected, the action buttons otherwise, packed
/// active-low into bits 3..0.
pub open spec fn spec_joypad_keys(j: Joypad) -> int {
    if !j.is_direction {
        (if j.down {
            8int
        } else {
            0int
        }) + (if j.up {
            4int
        } else {
            0int
        }) + (if j.left {
            2int
        } else {
            0int
        }) + (if j.right {
            1int
        } else {
            0int
        })
    } else {
        (if j.start {
            8int
        } else {
            0int
        }) + (if j.select {
            4int
        } else {
            0int
        }) + (if j.b {
            2int
        } else {
            0int
        }) + (if j.a {
            1int
        } else {
            0int
        })
    }
}

impl Joypad {
    pub fn new() -> (r: Joypad)
        ensures
            r == (Joypad {
                is_direction: false,
                down: true,
                up: true,
                left: true,
                right: true,
                start: true,
                select: true,
                b: true,
                a: true,
            }),
    {
        Joypad {
            is_direction: false,

            down: true,
            up: true,
            left: true,
            right: true,

            start: true,
            select: true,
            b: true,
            a: true,
        }
    }

    pub fn get_keys(&self) -> (r: u8)
        ensures
            r == spec_joypad_keys(*self),
    {
        if !self.is_direction {
            (if self.down {
                8u8
            } else {
                0u8
            }) + (if self.up {
                4u8
            } else {
                0u8
            }) + (if self.left {
                2u8
            } else {
                0u8
            }) + (if self.right {
                1u8
            } else {
                0u8
            })
        } else {
            (if self.start {
                8u8
            } else {
                0u8
            }) + (if self.select {
                4u8
            } else {
                0u8
            }) + (if self.b {
                2u8
            } else {
                0u8
            }) + (if self.a {
                1u8
            } else {
                0u8
            })
        }
    }
}

} // verus!
