use vstd::prelude::*;

verus! {

/// Bit of the flag register that holds the Zero flag.
pub const ZERO_BIT: u8 = 7;
/// Bit of the flag register that holds the Subtract flag.
pub const SUBTRACT_BIT: u8 = 6;
/// Bit of the flag register that holds the Half-carry flag.
pub const HALF_CARRY_BIT: u8 = 5;
/// Bit of the flag register that holds the Carry flag.
pub const CARRY_BIT: u8 = 4;

/// Bit `i` of `x`.
pub open spec fn bit(x: u8, i: u8) -> bool {
    (x >> i) & 1 == 1
}

/// The 16-bit value whose high byte is `hi` and whose low byte is `lo`.
pub open spec fn join(hi: u8, lo: u8) -> u16 {
    (hi as int * 256 + lo as int) as u16
}

/// The high byte of a 16-bit value.
pub open spec fn high_byte(v: u16) -> u8 {
    (v as int / 256) as u8
}

/// The low byte of a 16-bit value.
pub open spec fn low_byte(v: u16) -> u8 {
    (v as int % 256) as u8
}

proof fn lemma_join(hi: u8, lo: u8)
    ensures
        ((hi as u16) << 8u16) | (lo as u16) == join(hi, lo),
{
    assert(((hi as u16) << 8u16) | (lo as u16) == (hi as u16) * 256 + (lo as u16)) by (bit_vector);
}

pub(crate) proof fn lemma_split(v: u16)
    ensures
        (v >> 8u16) as u8 == high_byte(v),
        (v & 0xFF) as u8 == low_byte(v),
        (v & 0xF0) as u8 == low_byte(v) & 0xF0,
{
    assert(v >> 8u16 == v / 256) by (bit_vector);
    assert(v & 0xFF == v % 256) by (bit_vector);
    assert((v & 0xF0) as u8 == ((v % 256) as u8) & 0xF0) by (bit_vector);
}

/// The 16-bit value whose high byte is `hi` and whose low byte is `lo`.
pub(crate) fn join_bytes(hi: u8, lo: u8) -> (r: u16)
    ensures
        r == join(hi, lo),
{
    proof {
        lemma_join(hi, lo);
    }
    ((hi as u16) << 8) | (lo as u16)
}

/// Every 16-bit value is rebuilt from its two bytes.
pub proof fn lemma_join_split(v: u16)
    ensures
        join(high_byte(v), low_byte(v)) == v,
{
}

/// The eight 8-bit registers and the two 16-bit registers of the processor.
#[derive(Clone, Copy, Debug, Default)]
pub struct Registers {
    pub a: u8,
    pub b: u8,
    pub c: u8,
    pub d: u8,
    pub e: u8,
    pub f: u8,
    pub h: u8,
    pub l: u8,
    pub sp: u16,
    pub pc: u16,
}

/// `f` with bit `i` set to `on` and its other bits kept.
fn with_bit(f: u8, i: u8, on: bool) -> (r: u8)
    requires
        i < 8,
    ensures
        bit(r, i) == on,
        forall|j: u8| j < 8 && j != i ==> bit(r, j) == bit(f, j),
        4 <= i ==> r & 0x0F == f & 0x0F,
{
    let mask: u8 = 1u8 << i;
    let r: u8 = if on { f | mask } else { f & !mask };
    proof {
        assert forall|j: u8| j < 8 && j != i implies bit(r, j) == bit(f, j) by {
            if on {
                assert(((f | (1u8 << i)) >> j) & 1 == (f >> j) & 1) by (bit_vector)
                    requires i < 8, j < 8, j != i;
            } else {
                assert(((f & !(1u8 << i)) >> j) & 1 == (f >> j) & 1) by (bit_vector)
                    requires i < 8, j < 8, j != i;
            }
        }
        if on {
            assert(((f | (1u8 << i)) >> i) & 1 == 1) by (bit_vector) requires i < 8;
            assert(4 <= i ==> (f | (1u8 << i)) & 0x0F == f & 0x0F) by (bit_vector) requires i < 8;
        } else {
            assert(((f & !(1u8 << i)) >> i) & 1 == 0) by (bit_vector) requires i < 8;
            assert(4 <= i ==> (f & !(1u8 << i)) & 0x0F == f & 0x0F) by (bit_vector) requires i < 8;
        }
    }
    r
}

impl Registers {
    /// The low four bits of the flag register are zero.
    pub open spec fn wf(&self) -> bool {
        self.f & 0x0F == 0
    }

    /// Every register zero.
    pub open spec fn new_spec() -> Registers {
        Registers { a: 0, b: 0, c: 0, d: 0, e: 0, f: 0, h: 0, l: 0, sp: 0, pc: 0 }
    }

    /// The registers at power-on, all zero.
    pub fn new() -> (r: Registers)
        ensures
            r == Registers::new_spec(),
            r.wf(),
    {
        proof {
            assert(0u8 & 0x0F == 0) by (bit_vector);
        }
        Registers { a: 0, b: 0, c: 0, d: 0, e: 0, f: 0, h: 0, l: 0, sp: 0, pc: 0 }
    }

    pub fn af(&self) -> (r: u16)
        ensures
            r == join(self.a, self.f),
    {
        join_bytes(self.a, self.f)
    }

    /// Writes `a` from the high byte and `f` from the high nibble of the low byte.
    pub fn write_af(&mut self, val: u16)
        ensures
            final(self).a == high_byte(val),
            final(self).f == low_byte(val) & 0xF0,
            final(self).f & 0x0F == 0,
            final(self).wf(),
            *final(self) == (Registers { a: final(self).a, f: final(self).f, ..*old(self) }),
    {
        proof {
            lemma_split(val);
            let lo = low_byte(val);
            assert((lo & 0xF0) & 0x0F == 0) by (bit_vector);
        }
        self.a = (val >> 8) as u8;
        self.f = (val & 0xF0) as u8;
    }

    pub fn bc(&self) -> (r: u16)
        ensures
            r == join(self.b, self.c),
    {
        join_bytes(self.b, self.c)
    }

    pub fn write_bc(&mut self, val: u16)
        ensures
            *final(self) == (Registers { b: high_byte(val), c: low_byte(val), ..*old(self) }),
    {
        proof {
            lemma_split(val);
        }
        self.b = (val >> 8) as u8;
        self.c = (val & 0xFF) as u8;
    }

    pub fn de(&self) -> (r: u16)
        ensures
            r == join(self.d, self.e),
    {
        join_bytes(self.d, self.e)
    }

    pub fn write_de(&mut self, val: u16)
        ensures
            *final(self) == (Registers { d: high_byte(val), e: low_byte(val), ..*old(self) }),
    {
        proof {
            lemma_split(val);
        }
        self.d = (val >> 8) as u8;
        self.e = (val & 0xFF) as u8;
    }

    pub fn hl(&self) -> (r: u16)
        ensures
            r == join(self.h, self.l),
    {
        join_bytes(self.h, self.l)
    }

    pub fn write_hl(&mut self, val: u16)
        ensures
            *final(self) == (Registers { h: high_byte(val), l: low_byte(val), ..*old(self) }),
    {
        proof {
            lemma_split(val);
        }
        self.h = (val >> 8) as u8;
        self.l = (val & 0xFF) as u8;
    }

    /// The flag register with bit `i` set to `on`: the other fields are kept.
    pub open spec fn flag_written(self, i: u8, on: bool, after: Registers) -> bool {
        &&& bit(after.f, i) == on
        &&& forall|j: u8| j < 8 && j != i ==> bit(after.f, j) == bit(self.f, j)
        &&& (self.wf() ==> after.wf())
        &&& after == (Registers { f: after.f, ..self })
    }

    fn write_flag(&mut self, i: u8, on: bool)
        requires
            4 <= i < 8,
        ensures
            old(self).flag_written(i, on, *final(self)),
    {
        self.f = with_bit(self.f, i, on);
    }

    pub fn zf(&self) -> (r: bool)
        ensures
            r == bit(self.f, ZERO_BIT),
    {
        proof {
            let f = self.f;
            assert((f & 0x80 > 0) == ((f >> 7u8) & 1 == 1)) by (bit_vector);
        }
        (self.f & 0b_1000_0000) > 0
    }

    pub fn write_zf(&mut self, zf: bool)
        ensures
            old(self).flag_written(ZERO_BIT, zf, *final(self)),
    {
        self.write_flag(ZERO_BIT, zf);
    }

    pub fn nf(&self) -> (r: bool)
        ensures
            r == bit(self.f, SUBTRACT_BIT),
    {
        proof {
            let f = self.f;
            assert((f & 0x40 > 0) == ((f >> 6u8) & 1 == 1)) by (bit_vector);
        }
        (self.f & 0b_0100_0000) > 0
    }

    pub fn write_nf(&mut self, nf: bool)
        ensures
            old(self).flag_written(SUBTRACT_BIT, nf, *final(self)),
    {
        self.write_flag(SUBTRACT_BIT, nf);
    }

    pub fn hf(&self) -> (r: bool)
        ensures
            r == bit(self.f, HALF_CARRY_BIT),
    {
        proof {
            let f = self.f;
            assert((f & 0x20 > 0) == ((f >> 5u8) & 1 == 1)) by (bit_vector);
        }
        (self.f & 0b_0010_0000) > 0
    }

    pub fn write_hf(&mut self, hf: bool)
        ensures
            old(self).flag_written(HALF_CARRY_BIT, hf, *final(self)),
    {
        self.write_flag(HALF_CARRY_BIT, hf);
    }

    pub fn cf(&self) -> (r: bool)
        ensures
            r == bit(self.f, CARRY_BIT),
    {
        proof {
            let f = self.f;
            assert((f & 0x10 > 0) == ((f >> 4u8) & 1 == 1)) by (bit_vector);
        }
        (self.f & 0b_0001_0000) > 0
    }

    pub fn write_cf(&mut self, cf: bool)
        ensures
            old(self).flag_written(CARRY_BIT, cf, *final(self)),
    {
        self.write_flag(CARRY_BIT, cf);
    }
}

} // verus!
