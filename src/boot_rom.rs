use vstd::prelude::*;

verus! {

/// The read-only program the processor runs at power-on.
pub struct BootROM {
    rom: Box<[u8]>,
}

impl View for BootROM {
    type V = Seq<u8>;

    closed spec fn view(&self) -> Seq<u8> {
        self.rom@
    }
}

impl BootROM {
    pub fn new(rom: Box<[u8]>) -> (r: Self)
        ensures
            r@ == rom@,
    {
        Self { rom }
    }

    /// The byte at `addr`, which must lie inside the image.
    pub fn read(&self, addr: u16) -> (r: u8)
        requires
            (addr as int) < self@.len(),
        ensures
            r == self@[addr as int],
    {
        self.rom[addr as usize]
    }
}

} // verus!
