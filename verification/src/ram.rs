use vstd::prelude::*;

verus! {

/// An 8 KiB working-memory block with byte-granular load and store.
pub struct Ram {
    data: Vec<u8>,
}

pub const RAM_SIZE: usize = 8192;

impl View for Ram {
    type V = Seq<u8>;

    closed spec fn view(&self) -> Seq<u8> {
        self.data@
    }
}

impl Ram {
    pub fn new() -> (r: Ram)
        ensures
            r@ == Seq::new(RAM_SIZE as nat, |i: int| 0u8),
            r@.len() == RAM_SIZE,
    {
        let mut data: Vec<u8> = Vec::new();
        let mut i: usize = 0;
        while i < RAM_SIZE
            invariant
                i <= RAM_SIZE,
                data@.len() == i,
                forall|j: int| 0 <= j < i ==> data@[j] == 0u8,
            decreases RAM_SIZE - i,
        {
            data.push(0);
            i = i + 1;
        }
        proof {
            assert(data@ =~= Seq::new(RAM_SIZE as nat, |i: int| 0u8));
        }
        Ram { data }
    }

    pub fn load(&self, address: u16) -> (r: u8)
        requires
            address < self@.len(),
        ensures
            r == self@[address as int],
    {
        self.data[address as usize]
    }

    pub fn store(&mut self, address: u16, value: u8)
        requires
            address < old(self)@.len(),
        ensures
            final(self)@ == old(self)@.update(address as int, value),
    {
        self.data.set(address as usize, value);
    }
}

} // verus!
