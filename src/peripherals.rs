use vstd::prelude::*;

verus! {

/// Number of addresses on the bus.
pub const ADDRESS_SPACE: usize = 0x10000;

/// The byte-addressed bus the processor reads and writes: every 16-bit address holds one byte.
pub struct Peripherals {
    mem: Vec<u8>,
}

impl View for Peripherals {
    type V = Seq<u8>;

    closed spec fn view(&self) -> Seq<u8> {
        self.mem@
    }
}

impl Peripherals {
    /// One byte for each 16-bit address.
    pub open spec fn wf(&self) -> bool {
        self@.len() == ADDRESS_SPACE
    }

    /// A bus whose every address holds zero.
    pub fn new() -> (r: Peripherals)
        ensures
            r.wf(),
            forall|i: int| 0 <= i < ADDRESS_SPACE ==> r@[i] == 0,
    {
        let mut mem: Vec<u8> = Vec::new();
        let mut i: usize = 0;
        while i < ADDRESS_SPACE
            invariant
                i <= ADDRESS_SPACE,
                mem@.len() == i,
                forall|k: int| 0 <= k < i ==> mem@[k] == 0,
            decreases ADDRESS_SPACE - i,
        {
            mem.push(0);
            i = i + 1;
        }
        Peripherals { mem }
    }

    pub fn read(&self, addr: u16) -> (r: u8)
        requires
            self.wf(),
        ensures
            r == self@[addr as int],
    {
        self.mem[addr as usize]
    }

    pub fn write(&mut self, addr: u16, val: u8)
        requires
            old(self).wf(),
        ensures
            final(self)@ == old(self)@.update(addr as int, val),
            final(self).wf(),
    {
        self.mem.set(addr as usize, val);
    }
}

} // verus!
