use vstd::prelude::*;

use crate::cpu::{Context, Cpu};
use crate::peripherals::Peripherals;
use crate::registers::{bit, high_byte, join, join_bytes, lemma_split, low_byte, Registers, CARRY_BIT, ZERO_BIT};

verus! {

// A resolver call that touches the bus charges one M-cycle and returns `None`; the call after
// the last such access hands back the result and resets the step marker to 0. Register
// operands touch no bus and complete in the same call. An operation that has begun owns the
// step marker until it completes: the marker records which operation set it, and only that
// operation may be called until the marker is back at 0.

/// 8-bit operands.
pub trait IO8<T: Copy>: Sized {
    /// Whether `read8` on `src` may be called in state `s`: the operand can be read, and no
    /// other operation is part way through.
    spec fn can_read8(s: Self, src: T) -> bool;

    /// Whether `write8` on `dst` may be called in state `s`: the operand can be written, and no
    /// other operation is part way through.
    spec fn can_write8(s: Self, dst: T) -> bool;

    /// What one call of `read8` on `src` does: the state before and after, and its result.
    spec fn read8_spec(before: Self, bus: Seq<u8>, src: T, after: Self, r: Option<u8>) -> bool;

    /// What one call of `write8` on `dst` does to the state and the bus, and its result.
    spec fn write8_spec(
        before: Self,
        bus: Seq<u8>,
        dst: T,
        val: u8,
        after: Self,
        bus_after: Seq<u8>,
        r: Option<()>,
    ) -> bool;

    fn read8(&mut self, bus: &Peripherals, src: T) -> (r: Option<u8>)
        requires
            bus.wf(),
            Self::can_read8(*old(self), src),
        ensures
            Self::read8_spec(*old(self), bus@, src, *final(self), r),
    ;

    fn write8(&mut self, bus: &mut Peripherals, dst: T, val: u8) -> (r: Option<()>)
        requires
            old(bus).wf(),
            Self::can_write8(*old(self), dst),
        ensures
            final(bus).wf(),
            Self::write8_spec(*old(self), old(bus)@, dst, val, *final(self), final(bus)@, r),
    ;
}

/// 16-bit operands.
pub trait IO16<T: Copy>: Sized {
    /// Whether `read16` on `src` may be called in state `s`: the operand can be read, and no
    /// other operation is part way through.
    spec fn can_read16(s: Self, src: T) -> bool;

    /// Whether `write16` on `dst` may be called in state `s`: the operand can be written, and
    /// no other operation is part way through.
    spec fn can_write16(s: Self, dst: T) -> bool;

    /// What one call of `read16` on `src` does: the state before and after, and its result.
    spec fn read16_spec(before: Self, bus: Seq<u8>, src: T, after: Self, r: Option<u16>) -> bool;

    /// What one call of `write16` on `dst` does to the state and the bus, and its result.
    spec fn write16_spec(
        before: Self,
        bus: Seq<u8>,
        dst: T,
        val: u16,
        after: Self,
        bus_after: Seq<u8>,
        r: Option<()>,
    ) -> bool;

    fn read16(&mut self, bus: &Peripherals, src: T) -> (r: Option<u16>)
        requires
            bus.wf(),
            Self::can_read16(*old(self), src),
        ensures
            Self::read16_spec(*old(self), bus@, src, *final(self), r),
    ;

    fn write16(&mut self, bus: &mut Peripherals, dst: T, val: u16) -> (r: Option<()>)
        requires
            old(bus).wf(),
            Self::can_write16(*old(self), dst),
        ensures
            final(bus).wf(),
            Self::write16_spec(*old(self), old(bus)@, dst, val, *final(self), final(bus)@, r),
    ;
}

/// A single 8-bit register.
#[derive(Clone, Copy, Debug, PartialEq, Eq, Structural)]
pub enum Reg8 {
    A,
    B,
    C,
    D,
    E,
    H,
    L,
}

/// A register pair, or the stack pointer.
#[derive(Clone, Copy, Debug, PartialEq, Eq, Structural)]
pub enum Reg16 {
    AF,
    BC,
    DE,
    HL,
    SP,
}

/// The byte that follows the opcode, read at the program counter.
#[derive(Clone, Copy, Debug)]
pub struct Imm8;

/// The two bytes that follow the opcode, low byte first.
#[derive(Clone, Copy, Debug)]
pub struct Imm16;

/// Memory at the address in a register pair; `CFF` is `0xFF00 + C`, `HLD` and `HLI` use `HL`
/// and then decrement or increment it.
#[derive(Clone, Copy, Debug, PartialEq, Eq, Structural)]
pub enum Indirect {
    BC,
    DE,
    HL,
    CFF,
    HLD,
    HLI,
}

/// Memory at an address that follows the opcode: `D` a 16-bit address, `DFF` `0xFF00` plus
/// an 8-bit offset.
#[derive(Clone, Copy, Debug, PartialEq, Eq, Structural)]
pub enum Direct8 {
    D,
    DFF,
}

/// Two bytes of memory at a 16-bit address that follows the opcode.
#[derive(Clone, Copy, Debug)]
pub struct Direct16;

/// An operation that spans several calls, recorded as the owner of the step marker while it is
/// under way.
#[derive(Clone, Copy, Debug, PartialEq, Eq, Structural)]
pub enum Access {
    ReadImm8,
    ReadImm16,
    ReadIndirect(Indirect),
    WriteIndirect(Indirect),
    ReadDirect8(Direct8),
    WriteDirect8(Direct8),
    WriteDirect16,
}

/// A condition on the flags: Zero clear or set, Carry clear or set.
#[derive(Clone, Copy, Debug, PartialEq, Eq, Structural)]
pub enum Cond {
    NZ,
    Z,
    NC,
    C,
}

/// The value of register `m`.
pub open spec fn reg8(r: Registers, m: Reg8) -> u8 {
    match m {
        Reg8::A => r.a,
        Reg8::B => r.b,
        Reg8::C => r.c,
        Reg8::D => r.d,
        Reg8::E => r.e,
        Reg8::H => r.h,
        Reg8::L => r.l,
    }
}

/// The registers after register `m` is set to `v`.
pub open spec fn set_reg8(r: Registers, m: Reg8, v: u8) -> Registers {
    match m {
        Reg8::A => Registers { a: v, ..r },
        Reg8::B => Registers { b: v, ..r },
        Reg8::C => Registers { c: v, ..r },
        Reg8::D => Registers { d: v, ..r },
        Reg8::E => Registers { e: v, ..r },
        Reg8::H => Registers { h: v, ..r },
        Reg8::L => Registers { l: v, ..r },
    }
}

/// The value of pair `m`.
pub open spec fn reg16(r: Registers, m: Reg16) -> u16 {
    match m {
        Reg16::AF => join(r.a, r.f),
        Reg16::BC => join(r.b, r.c),
        Reg16::DE => join(r.d, r.e),
        Reg16::HL => join(r.h, r.l),
        Reg16::SP => r.sp,
    }
}

/// The registers after pair `m` is set to `v`; the low nibble of `F` stays zero.
pub open spec fn set_reg16(r: Registers, m: Reg16, v: u16) -> Registers {
    match m {
        Reg16::AF => Registers { a: high_byte(v), f: low_byte(v) & 0xF0, ..r },
        Reg16::BC => Registers { b: high_byte(v), c: low_byte(v), ..r },
        Reg16::DE => Registers { d: high_byte(v), e: low_byte(v), ..r },
        Reg16::HL => Registers { h: high_byte(v), l: low_byte(v), ..r },
        Reg16::SP => Registers { sp: v, ..r },
    }
}

/// Whether condition `c` holds of the flags.
pub open spec fn cond_holds(r: Registers, c: Cond) -> bool {
    match c {
        Cond::NZ => !bit(r.f, ZERO_BIT),
        Cond::Z => bit(r.f, ZERO_BIT),
        Cond::NC => !bit(r.f, CARRY_BIT),
        Cond::C => bit(r.f, CARRY_BIT),
    }
}

/// `v + 1` modulo 2^16.
pub open spec fn inc16(v: u16) -> u16 {
    ((v as int + 1) % 0x10000) as u16
}

/// `v - 1` modulo 2^16.
pub open spec fn dec16(v: u16) -> u16 {
    ((v as int + 0xFFFF) % 0x10000) as u16
}

/// The registers with the program counter moved past one byte.
pub open spec fn advance_pc(r: Registers) -> Registers {
    Registers { pc: inc16(r.pc), ..r }
}

/// The processor with its registers replaced.
pub open spec fn with_regs(s: Cpu, r: Registers) -> Cpu {
    Cpu { registers: r, context: s.context }
}

/// The processor with its step marker and scratch values replaced.
pub open spec fn with_step(s: Cpu, step: u8, val8: u8, val16: u16) -> Cpu {
    Cpu { registers: s.registers, context: Context { step, val8, val16, ..s.context } }
}

/// The processor with operation `a` recorded as the owner of the step marker.
pub open spec fn start(s: Cpu, a: Access) -> Cpu {
    Cpu { registers: s.registers, context: Context { owner: Some(a), ..s.context } }
}

/// Whether operation `a` may be called: none is under way, or `a` itself is, at a step no
/// later than `last`.
pub open spec fn resumable(s: Cpu, a: Access, last: u8) -> bool {
    s.context.step == 0 || (s.context.owner == Some(a) && s.context.step <= last)
}

/// The processor with its step marker replaced.
pub open spec fn at_step(s: Cpu, step: u8) -> Cpu {
    with_step(s, step, s.context.val8, s.context.val16)
}

/// The processor at the end of an operation: step marker back at 0.
pub open spec fn done(s: Cpu) -> Cpu {
    at_step(s, 0)
}

/// The address an indirect operand reaches.
pub open spec fn indirect_addr(r: Registers, m: Indirect) -> u16 {
    match m {
        Indirect::BC => join(r.b, r.c),
        Indirect::DE => join(r.d, r.e),
        Indirect::HL | Indirect::HLD | Indirect::HLI => join(r.h, r.l),
        Indirect::CFF => (0xFF00 + r.c as int) as u16,
    }
}

/// The registers after an indirect access: `HL` moved on by `HLI` and `HLD`, else unchanged.
pub open spec fn indirect_after(r: Registers, m: Indirect) -> Registers {
    match m {
        Indirect::HLI => set_reg16(r, Reg16::HL, inc16(join(r.h, r.l))),
        Indirect::HLD => set_reg16(r, Reg16::HL, dec16(join(r.h, r.l))),
        _ => r,
    }
}

/// The processor after the first step of a direct operand, which reads the byte at the
/// program counter: `D` keeps it as the low byte of the address, `DFF` makes the address.
pub open spec fn direct_first(before: Cpu, bus: Seq<u8>, m: Direct8, a: Access) -> Cpu {
    let s = start(with_regs(before, advance_pc(before.registers)), a);
    let lo = bus[before.registers.pc as int];
    match m {
        Direct8::D => with_step(s, 1, lo, before.context.val16),
        Direct8::DFF => with_step(s, 2, before.context.val8, (0xFF00 + lo as int) as u16),
    }
}

/// The processor after the step that reads the high byte of a 16-bit address or value at the
/// program counter, whose low byte is in `val8`.
pub open spec fn high_step(before: Cpu, bus: Seq<u8>) -> Cpu {
    with_step(
        with_regs(before, advance_pc(before.registers)),
        2,
        before.context.val8,
        join(bus[before.registers.pc as int], before.context.val8),
    )
}

pub(crate) fn inc(v: u16) -> (r: u16)
    ensures
        r == inc16(v),
{
    if v == 0xFFFF { 0 } else { v + 1 }
}

pub(crate) fn dec(v: u16) -> (r: u16)
    ensures
        r == dec16(v),
{
    if v == 0 { 0xFFFF } else { v - 1 }
}

impl Cpu {
    /// Reads the byte at the program counter and moves the program counter past it.
    fn read_pc(&mut self, bus: &Peripherals) -> (r: u8)
        requires
            bus.wf(),
        ensures
            r == bus@[old(self).registers.pc as int],
            *final(self) == with_regs(*old(self), advance_pc(old(self).registers)),
    {
        let v = bus.read(self.registers.pc);
        self.registers.pc = inc(self.registers.pc);
        v
    }

    /// The address of an indirect operand; `HLI` and `HLD` then move `HL` on.
    fn indirect_address(&mut self, m: Indirect) -> (r: u16)
        ensures
            r == indirect_addr(old(self).registers, m),
            *final(self) == with_regs(*old(self), indirect_after(old(self).registers, m)),
    {
        match m {
            Indirect::BC => self.registers.bc(),
            Indirect::DE => self.registers.de(),
            Indirect::HL => self.registers.hl(),
            Indirect::CFF => 0xFF00 + (self.registers.c as u16),
            Indirect::HLD => {
                let addr = self.registers.hl();
                self.registers.write_hl(dec(addr));
                addr
            },
            Indirect::HLI => {
                let addr = self.registers.hl();
                self.registers.write_hl(inc(addr));
                addr
            },
        }
    }

    /// Whether condition `c` holds; touches no bus.
    pub fn cond(&self, c: Cond) -> (r: bool)
        ensures
            r == cond_holds(self.registers, c),
    {
        match c {
            Cond::NZ => !self.registers.zf(),
            Cond::Z => self.registers.zf(),
            Cond::NC => !self.registers.cf(),
            Cond::C => self.registers.cf(),
        }
    }
}

impl IO8<Reg8> for Cpu {
    open spec fn can_read8(s: Cpu, src: Reg8) -> bool {
        true
    }

    open spec fn can_write8(s: Cpu, dst: Reg8) -> bool {
        true
    }

    open spec fn read8_spec(before: Cpu, bus: Seq<u8>, src: Reg8, after: Cpu, r: Option<u8>) -> bool {
        after == before && r == Some(reg8(before.registers, src))
    }

    open spec fn write8_spec(
        before: Cpu,
        bus: Seq<u8>,
        dst: Reg8,
        val: u8,
        after: Cpu,
        bus_after: Seq<u8>,
        r: Option<()>,
    ) -> bool {
        &&& after == with_regs(before, set_reg8(before.registers, dst, val))
        &&& bus_after == bus
        &&& r == Some(())
    }

    fn read8(&mut self, bus: &Peripherals, src: Reg8) -> (r: Option<u8>) {
        Some(
            match src {
                Reg8::A => self.registers.a,
                Reg8::B => self.registers.b,
                Reg8::C => self.registers.c,
                Reg8::D => self.registers.d,
                Reg8::E => self.registers.e,
                Reg8::H => self.registers.h,
                Reg8::L => self.registers.l,
            },
        )
    }

    fn write8(&mut self, bus: &mut Peripherals, dst: Reg8, val: u8) -> (r: Option<()>) {
        match dst {
            Reg8::A => self.registers.a = val,
            Reg8::B => self.registers.b = val,
            Reg8::C => self.registers.c = val,
            Reg8::D => self.registers.d = val,
            Reg8::E => self.registers.e = val,
            Reg8::H => self.registers.h = val,
            Reg8::L => self.registers.l = val,
        }
        Some(())
    }
}

impl IO16<Reg16> for Cpu {
    open spec fn can_read16(s: Cpu, src: Reg16) -> bool {
        true
    }

    open spec fn can_write16(s: Cpu, dst: Reg16) -> bool {
        true
    }

    open spec fn read16_spec(before: Cpu, bus: Seq<u8>, src: Reg16, after: Cpu, r: Option<u16>) -> bool {
        after == before && r == Some(reg16(before.registers, src))
    }

    open spec fn write16_spec(
        before: Cpu,
        bus: Seq<u8>,
        dst: Reg16,
        val: u16,
        after: Cpu,
        bus_after: Seq<u8>,
        r: Option<()>,
    ) -> bool {
        &&& after == with_regs(before, set_reg16(before.registers, dst, val))
        &&& bus_after == bus
        &&& r == Some(())
    }

    fn read16(&mut self, bus: &Peripherals, src: Reg16) -> (r: Option<u16>) {
        Some(
            match src {
                Reg16::AF => self.registers.af(),
                Reg16::BC => self.registers.bc(),
                Reg16::DE => self.registers.de(),
                Reg16::HL => self.registers.hl(),
                Reg16::SP => self.registers.sp,
            },
        )
    }

    fn write16(&mut self, bus: &mut Peripherals, dst: Reg16, val: u16) -> (r: Option<()>) {
        match dst {
            Reg16::AF => self.registers.write_af(val),
            Reg16::BC => self.registers.write_bc(val),
            Reg16::DE => self.registers.write_de(val),
            Reg16::HL => self.registers.write_hl(val),
            Reg16::SP => self.registers.sp = val,
        }
        Some(())
    }
}

impl IO8<Imm8> for Cpu {
    open spec fn can_read8(s: Cpu, src: Imm8) -> bool {
        resumable(s, Access::ReadImm8, 1)
    }

    /// An immediate is part of the program: it is never written.
    open spec fn can_write8(s: Cpu, dst: Imm8) -> bool {
        false
    }

    open spec fn read8_spec(before: Cpu, bus: Seq<u8>, src: Imm8, after: Cpu, r: Option<u8>) -> bool {
        let regs = before.registers;
        let ctx = before.context;
        if ctx.step == 0 {
            &&& r is None
            &&& after == with_step(
                start(with_regs(before, advance_pc(regs)), Access::ReadImm8),
                1,
                bus[regs.pc as int],
                ctx.val16,
            )
        } else {
            r == Some(ctx.val8) && after == done(before)
        }
    }

    open spec fn write8_spec(
        before: Cpu,
        bus: Seq<u8>,
        dst: Imm8,
        val: u8,
        after: Cpu,
        bus_after: Seq<u8>,
        r: Option<()>,
    ) -> bool {
        after == before && bus_after == bus && r is None
    }

    fn read8(&mut self, bus: &Peripherals, src: Imm8) -> (r: Option<u8>) {
        if self.context.step == 0 {
            self.context.val8 = self.read_pc(bus);
            self.context.owner = Some(Access::ReadImm8);
            self.context.step = 1;
            None
        } else {
            self.context.step = 0;
            Some(self.context.val8)
        }
    }

    fn write8(&mut self, bus: &mut Peripherals, dst: Imm8, val: u8) -> (r: Option<()>) {
        None
    }
}

impl IO16<Imm16> for Cpu {
    open spec fn can_read16(s: Cpu, src: Imm16) -> bool {
        resumable(s, Access::ReadImm16, 2)
    }

    /// An immediate is part of the program: it is never written.
    open spec fn can_write16(s: Cpu, dst: Imm16) -> bool {
        false
    }

    open spec fn read16_spec(before: Cpu, bus: Seq<u8>, src: Imm16, after: Cpu, r: Option<u16>) -> bool {
        let regs = before.registers;
        let ctx = before.context;
        if ctx.step == 0 {
            &&& r is None
            &&& after == with_step(
                start(with_regs(before, advance_pc(regs)), Access::ReadImm16),
                1,
                bus[regs.pc as int],
                ctx.val16,
            )
        } else if ctx.step == 1 {
            r is None && after == high_step(before, bus)
        } else {
            r == Some(ctx.val16) && after == done(before)
        }
    }

    open spec fn write16_spec(
        before: Cpu,
        bus: Seq<u8>,
        dst: Imm16,
        val: u16,
        after: Cpu,
        bus_after: Seq<u8>,
        r: Option<()>,
    ) -> bool {
        after == before && bus_after == bus && r is None
    }

    fn read16(&mut self, bus: &Peripherals, src: Imm16) -> (r: Option<u16>) {
        if self.context.step == 0 {
            self.context.val8 = self.read_pc(bus);
            self.context.owner = Some(Access::ReadImm16);
            self.context.step = 1;
            None
        } else if self.context.step == 1 {
            self.address_high(bus);
            None
        } else {
            self.context.step = 0;
            Some(self.context.val16)
        }
    }

    fn write16(&mut self, bus: &mut Peripherals, dst: Imm16, val: u16) -> (r: Option<()>) {
        None
    }
}

impl IO8<Indirect> for Cpu {
    open spec fn can_read8(s: Cpu, src: Indirect) -> bool {
        resumable(s, Access::ReadIndirect(src), 1)
    }

    open spec fn can_write8(s: Cpu, dst: Indirect) -> bool {
        resumable(s, Access::WriteIndirect(dst), 1)
    }

    open spec fn read8_spec(before: Cpu, bus: Seq<u8>, src: Indirect, after: Cpu, r: Option<u8>) -> bool {
        let regs = before.registers;
        let ctx = before.context;
        if ctx.step == 0 {
            &&& r is None
            &&& after == with_step(
                start(with_regs(before, indirect_after(regs, src)), Access::ReadIndirect(src)),
                1,
                bus[indirect_addr(regs, src) as int],
                ctx.val16,
            )
        } else {
            r == Some(ctx.val8) && after == done(before)
        }
    }

    open spec fn write8_spec(
        before: Cpu,
        bus: Seq<u8>,
        dst: Indirect,
        val: u8,
        after: Cpu,
        bus_after: Seq<u8>,
        r: Option<()>,
    ) -> bool {
        let regs = before.registers;
        if before.context.step == 0 {
            &&& r is None
            &&& bus_after == bus.update(indirect_addr(regs, dst) as int, val)
            &&& after == at_step(
                start(with_regs(before, indirect_after(regs, dst)), Access::WriteIndirect(dst)),
                1,
            )
        } else {
            r == Some(()) && bus_after == bus && after == done(before)
        }
    }

    fn read8(&mut self, bus: &Peripherals, src: Indirect) -> (r: Option<u8>) {
        if self.context.step == 0 {
            let addr = self.indirect_address(src);
            self.context.val8 = bus.read(addr);
            self.context.owner = Some(Access::ReadIndirect(src));
            self.context.step = 1;
            None
        } else {
            self.context.step = 0;
            Some(self.context.val8)
        }
    }

    fn write8(&mut self, bus: &mut Peripherals, dst: Indirect, val: u8) -> (r: Option<()>) {
        if self.context.step == 0 {
            let addr = self.indirect_address(dst);
            bus.write(addr, val);
            self.context.owner = Some(Access::WriteIndirect(dst));
            self.context.step = 1;
            None
        } else {
            self.context.step = 0;
            Some(())
        }
    }
}

/// Whether a direct operation on `m` may be called: `DFF` has no step 1, since its address
/// is a single byte.
pub open spec fn direct_resumable(s: Cpu, m: Direct8, a: Access) -> bool {
    resumable(s, a, 3) && (m == Direct8::DFF ==> s.context.step != 1)
}

impl IO8<Direct8> for Cpu {
    open spec fn can_read8(s: Cpu, src: Direct8) -> bool {
        direct_resumable(s, src, Access::ReadDirect8(src))
    }

    open spec fn can_write8(s: Cpu, dst: Direct8) -> bool {
        direct_resumable(s, dst, Access::WriteDirect8(dst))
    }

    open spec fn read8_spec(before: Cpu, bus: Seq<u8>, src: Direct8, after: Cpu, r: Option<u8>) -> bool {
        let ctx = before.context;
        if ctx.step == 0 {
            r is None && after == direct_first(before, bus, src, Access::ReadDirect8(src))
        } else if ctx.step == 1 {
            r is None && after == high_step(before, bus)
        } else if ctx.step == 2 {
            r is None && after == with_step(before, 3, bus[ctx.val16 as int], ctx.val16)
        } else {
            r == Some(ctx.val8) && after == done(before)
        }
    }

    open spec fn write8_spec(
        before: Cpu,
        bus: Seq<u8>,
        dst: Direct8,
        val: u8,
        after: Cpu,
        bus_after: Seq<u8>,
        r: Option<()>,
    ) -> bool {
        let ctx = before.context;
        if ctx.step == 0 {
            &&& r is None
            &&& bus_after == bus
            &&& after == direct_first(before, bus, dst, Access::WriteDirect8(dst))
        } else if ctx.step == 1 {
            r is None && bus_after == bus && after == high_step(before, bus)
        } else if ctx.step == 2 {
            &&& r is None
            &&& bus_after == bus.update(ctx.val16 as int, val)
            &&& after == at_step(before, 3)
        } else {
            r == Some(()) && bus_after == bus && after == done(before)
        }
    }

    fn read8(&mut self, bus: &Peripherals, src: Direct8) -> (r: Option<u8>) {
        if self.context.step == 0 {
            self.direct_address_low(bus, src, Access::ReadDirect8(src));
            None
        } else if self.context.step == 1 {
            self.address_high(bus);
            None
        } else if self.context.step == 2 {
            self.context.val8 = bus.read(self.context.val16);
            self.context.step = 3;
            None
        } else {
            self.context.step = 0;
            Some(self.context.val8)
        }
    }

    fn write8(&mut self, bus: &mut Peripherals, dst: Direct8, val: u8) -> (r: Option<()>) {
        if self.context.step == 0 {
            self.direct_address_low(bus, dst, Access::WriteDirect8(dst));
            None
        } else if self.context.step == 1 {
            self.address_high(bus);
            None
        } else if self.context.step == 2 {
            bus.write(self.context.val16, val);
            self.context.step = 3;
            None
        } else {
            self.context.step = 0;
            Some(())
        }
    }
}

impl IO16<Direct16> for Cpu {
    /// Only stores go through a 16-bit direct address.
    open spec fn can_read16(s: Cpu, src: Direct16) -> bool {
        false
    }

    open spec fn can_write16(s: Cpu, dst: Direct16) -> bool {
        resumable(s, Access::WriteDirect16, 4)
    }

    open spec fn read16_spec(before: Cpu, bus: Seq<u8>, src: Direct16, after: Cpu, r: Option<u16>) -> bool {
        after == before && r is None
    }

    open spec fn write16_spec(
        before: Cpu,
        bus: Seq<u8>,
        dst: Direct16,
        val: u16,
        after: Cpu,
        bus_after: Seq<u8>,
        r: Option<()>,
    ) -> bool {
        let ctx = before.context;
        if ctx.step == 0 {
            &&& r is None
            &&& bus_after == bus
            &&& after == direct_first(before, bus, Direct8::D, Access::WriteDirect16)
        } else if ctx.step == 1 {
            r is None && bus_after == bus && after == high_step(before, bus)
        } else if ctx.step == 2 {
            &&& r is None
            &&& bus_after == bus.update(ctx.val16 as int, low_byte(val))
            &&& after == at_step(before, 3)
        } else if ctx.step == 3 {
            &&& r is None
            &&& bus_after == bus.update(inc16(ctx.val16) as int, high_byte(val))
            &&& after == at_step(before, 4)
        } else {
            r == Some(()) && bus_after == bus && after == done(before)
        }
    }

    fn read16(&mut self, bus: &Peripherals, src: Direct16) -> (r: Option<u16>) {
        None
    }

    fn write16(&mut self, bus: &mut Peripherals, dst: Direct16, val: u16) -> (r: Option<()>) {
        if self.context.step == 0 {
            self.direct_address_low(bus, Direct8::D, Access::WriteDirect16);
            None
        } else if self.context.step == 1 {
            self.address_high(bus);
            None
        } else if self.context.step == 2 {
            proof {
                lemma_split(val);
            }
            bus.write(self.context.val16, (val & 0xFF) as u8);
            self.context.step = 3;
            None
        } else if self.context.step == 3 {
            proof {
                lemma_split(val);
            }
            bus.write(inc(self.context.val16), (val >> 8) as u8);
            self.context.step = 4;
            None
        } else {
            self.context.step = 0;
            Some(())
        }
    }
}

impl Cpu {
    /// First step of a direct operand: reads the byte at the program counter.
    fn direct_address_low(&mut self, bus: &Peripherals, m: Direct8, a: Access)
        requires
            bus.wf(),
            old(self).context.step == 0,
        ensures
            *final(self) == direct_first(*old(self), bus@, m, a),
    {
        let lo = self.read_pc(bus);
        self.context.owner = Some(a);
        match m {
            Direct8::D => {
                self.context.val8 = lo;
                self.context.step = 1;
            },
            Direct8::DFF => {
                self.context.val16 = 0xFF00 + (lo as u16);
                self.context.step = 2;
            },
        }
    }

    /// Reads the high byte of an address at the program counter; the low byte is in `val8`.
    fn address_high(&mut self, bus: &Peripherals)
        requires
            bus.wf(),
        ensures
            *final(self) == high_step(*old(self), bus@),
    {
        let hi = self.read_pc(bus);
        self.context.val16 = join_bytes(hi, self.context.val8);
        self.context.step = 2;
    }
}

/// Writing a register pair and reading it back gives the value written, for every pair and
/// the stack pointer; through `AF` only values whose low nibble is zero, since `F` keeps its
/// low nibble at zero.
pub proof fn lemma_reg16_round_trip(r: Registers, m: Reg16, v: u16)
    requires
        m == Reg16::AF ==> v & 0x0F == 0,
    ensures
        reg16(set_reg16(r, m, v), m) == v,
{
    if m == Reg16::AF {
        let lo = low_byte(v);
        assert(v & 0x0F == 0 ==> ((v % 256) as u8) & 0xF0 == (v % 256) as u8) by (bit_vector);
        assert(low_byte(v) & 0xF0 == low_byte(v));
    }
}

/// Register writes keep the low nibble of `F` at zero, whatever value is written.
pub proof fn lemma_register_writes_keep_wf(r: Registers, m8: Reg8, v8: u8, m16: Reg16, v16: u16)
    requires
        r.wf(),
    ensures
        set_reg8(r, m8, v8).wf(),
        set_reg16(r, m16, v16).wf(),
        indirect_after(r, Indirect::HLI).wf(),
        indirect_after(r, Indirect::HLD).wf(),
{
    let lo = low_byte(v16);
    assert((lo & 0xF0) & 0x0F == 0) by (bit_vector);
}

/// Two calls that read an 8-bit immediate: the first reads the byte at the program counter,
/// moves the program counter past it and returns nothing; the second returns that byte and
/// leaves the step marker at 0.
pub proof fn lemma_imm8_two_calls(
    s0: Cpu,
    bus: Seq<u8>,
    s1: Cpu,
    r1: Option<u8>,
    s2: Cpu,
    r2: Option<u8>,
)
    requires
        s0.context.step == 0,
        <Cpu as IO8<Imm8>>::read8_spec(s0, bus, Imm8, s1, r1),
        <Cpu as IO8<Imm8>>::read8_spec(s1, bus, Imm8, s2, r2),
    ensures
        r1 is None,
        s1.registers.pc == inc16(s0.registers.pc),
        r2 == Some(bus[s0.registers.pc as int]),
        s2.context.step == 0,
        s2.registers == s1.registers,
{
}

/// Reading a 16-bit immediate: two calls that each read a byte and return nothing, then a
/// call that returns the first byte plus 256 times the second, with the program counter two
/// bytes on and the step marker at 0.
pub proof fn lemma_imm16_three_calls(
    s0: Cpu,
    bus: Seq<u8>,
    s1: Cpu,
    r1: Option<u16>,
    s2: Cpu,
    r2: Option<u16>,
    s3: Cpu,
    r3: Option<u16>,
)
    requires
        s0.context.step == 0,
        <Cpu as IO16<Imm16>>::read16_spec(s0, bus, Imm16, s1, r1),
        <Cpu as IO16<Imm16>>::read16_spec(s1, bus, Imm16, s2, r2),
        <Cpu as IO16<Imm16>>::read16_spec(s2, bus, Imm16, s3, r3),
    ensures
        r1 is None,
        r2 is None,
        r3 is Some,
        r3->0 as int == bus[s0.registers.pc as int] as int + 256 * bus[inc16(s0.registers.pc) as int] as int,
        s3.registers.pc == inc16(inc16(s0.registers.pc)),
        s3.context.step == 0,
{
}

/// Writing through `HLI`: the first call stores the byte at the address in `HL` and moves
/// `HL` on by one; the second completes with nothing more written.
pub proof fn lemma_hli_write(
    s0: Cpu,
    bus0: Seq<u8>,
    v: u8,
    s1: Cpu,
    bus1: Seq<u8>,
    r1: Option<()>,
    s2: Cpu,
    bus2: Seq<u8>,
    r2: Option<()>,
)
    requires
        s0.context.step == 0,
        <Cpu as IO8<Indirect>>::write8_spec(s0, bus0, Indirect::HLI, v, s1, bus1, r1),
        <Cpu as IO8<Indirect>>::write8_spec(s1, bus1, Indirect::HLI, v, s2, bus2, r2),
    ensures
        r1 is None,
        r2 == Some(()),
        bus2 == bus0.update(join(s0.registers.h, s0.registers.l) as int, v),
        join(s2.registers.h, s2.registers.l) == inc16(join(s0.registers.h, s0.registers.l)),
        s2.context.step == 0,
{
    let hl = inc16(join(s0.registers.h, s0.registers.l));
    crate::registers::lemma_join_split(hl);
}

} // verus!
