use vstd::prelude::*;

verus! {

/// A raw cartridge image: a flat byte sequence with byte-granular access.
/// Reading the image from a file is the caller's concern; the image arrives
/// here as plain bytes.
pub struct Rom {
    data: Vec<u8>,
}

impl View for Rom {
    type V = Seq<u8>;

    closed spec fn view(&self) -> Seq<u8> {
        self.data@
    }
}

impl Rom {
    pub fn new(data: Vec<u8>) -> (r: Rom)
        ensures
            r@ == data@,
    {
        Rom { data }
    }

    pub fn load(&self, address: u16) -> (r: u8)
        requires
            address < self@.len(),
        ensures
            r == self@[address as int],
    {
        self.data[address as usize]
    }

    pub fn store(&mut self, address: u16, value: u8)
        requires
            address < old(self)@.len(),
        ensures
            final(self)@ == old(self)@.update(address as int, value),
    {
        self.data.set(address as usize, value);
    }
}

} // verus!
