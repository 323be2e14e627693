use vstd::prelude::*;

use crate::operand::{dec, dec16, inc, inc16, Access};
use crate::peripherals::Peripherals;
use crate::registers::Registers;

verus! {

/// The instruction in flight and the progress of the operand it is resolving, kept across
/// calls of `emulate_cycle`.
#[derive(Clone, Copy, Debug)]
pub struct Context {
    /// The most recently fetched opcode.
    pub opcode: u8,
    /// Whether the opcode came after the extended-table prefix.
    pub cb: bool,
    /// Whether the prefix has been fetched and the opcode after it is still to be read.
    pub prefix_pending: bool,
    /// Whether an instruction has been fetched and has not completed yet.
    pub in_flight: bool,
    /// How many bus accesses the operation under way has made; 0 when none is under way.
    pub step: u8,
    /// An 8-bit partial result of the operation under way.
    pub val8: u8,
    /// A 16-bit partial result of the operation under way.
    pub val16: u16,
    /// The operation that set the step marker; it means nothing while the marker is 0.
    pub owner: Option<Access>,
}

/// A fault that ends emulation.
#[derive(Clone, Copy, Debug, PartialEq, Eq, Structural)]
pub enum CpuError {
    /// The opcode has no handler; `pc` is the address it was fetched from.
    Unimplemented { opcode: u8, cb: bool, pc: u16 },
}

/// The opcode of the instruction that does nothing.
pub const NOP: u8 = 0x00;

/// The opcode that introduces an opcode of the extended table.
pub const CB_PREFIX: u8 = 0xCB;

/// Whether an opcode, from the base table or from the prefixed one, has a handler.
pub open spec fn is_mapped(opcode: u8, cb: bool) -> bool {
    !cb && opcode == NOP
}

/// Whether `decode` can go on from this context: it reads the opcode after the prefix, or
/// the opcode in flight is the prefix, or it has a handler.
pub open spec fn decodable(ctx: Context) -> bool {
    ctx.prefix_pending || (!ctx.cb && ctx.opcode == CB_PREFIX) || is_mapped(ctx.opcode, ctx.cb)
}

/// The power-on context: nothing fetched, nothing in flight.
pub open spec fn initial_context() -> Context {
    Context {
        opcode: 0,
        cb: false,
        prefix_pending: false,
        in_flight: false,
        step: 0,
        val8: 0,
        val16: 0,
        owner: None,
    }
}

/// The processor after fetching the opcode at the program counter.
pub open spec fn fetched(s: Cpu, bus: Seq<u8>) -> Cpu {
    Cpu {
        registers: Registers { pc: inc16(s.registers.pc), ..s.registers },
        context: Context {
            opcode: bus[s.registers.pc as int],
            cb: false,
            prefix_pending: false,
            in_flight: true,
            step: 0,
            ..s.context
        },
    }
}

/// The processor once the instruction in flight has completed.
pub open spec fn completed(s: Cpu) -> Cpu {
    Cpu { registers: s.registers, context: Context { in_flight: false, step: 0, ..s.context } }
}

/// What decoding and executing the opcode in flight does for one cycle. The prefix completes
/// its own cycle with no further access; the next cycle reads the opcode after it.
pub open spec fn decode_spec(before: Cpu, bus: Seq<u8>, after: Cpu, bus_after: Seq<u8>) -> bool {
    let ctx = before.context;
    &&& bus_after == bus
    &&& if ctx.prefix_pending {
        after == Cpu {
            registers: Registers { pc: inc16(before.registers.pc), ..before.registers },
            context: Context {
                opcode: bus[before.registers.pc as int],
                cb: true,
                prefix_pending: false,
                step: 0,
                ..ctx
            },
        }
    } else if !ctx.cb && ctx.opcode == CB_PREFIX {
        after == Cpu { registers: before.registers, context: Context { prefix_pending: true, ..ctx } }
    } else {
        after == completed(before)
    }
}

/// The processor as decoding finds it in a cycle: as it is while an instruction is in flight,
/// else after the fetch.
pub open spec fn started(s: Cpu, bus: Seq<u8>) -> Cpu {
    if s.context.in_flight { s } else { fetched(s, bus) }
}

/// What one cycle does: fetch when no instruction is in flight, then decode and execute.
pub open spec fn cycle_spec(before: Cpu, bus: Seq<u8>, after: Cpu, bus_after: Seq<u8>) -> bool {
    decode_spec(started(before, bus), bus, after, bus_after)
}

/// The fault that the next cycle meets, if any: an opcode without a handler, reported with
/// the address it was fetched from.
pub open spec fn cycle_fault(s: Cpu, bus: Seq<u8>) -> Option<CpuError> {
    let t = started(s, bus);
    if decodable(t.context) {
        None
    } else {
        Some(
            CpuError::Unimplemented {
                opcode: t.context.opcode,
                cb: t.context.cb,
                pc: dec16(t.registers.pc),
            },
        )
    }
}

pub struct Cpu {
    pub registers: Registers,
    pub context: Context,
}

impl Context {
    pub fn new() -> (r: Context)
        ensures
            r == initial_context(),
    {
        Context {
            opcode: 0,
            cb: false,
            prefix_pending: false,
            in_flight: false,
            step: 0,
            val8: 0,
            val16: 0,
            owner: None,
        }
    }
}

impl Cpu {
    /// A processor with all registers zero and no instruction in flight.
    pub fn new() -> (r: Cpu)
        ensures
            r.registers == Registers::new_spec(),
            r.context == initial_context(),
            r.registers.wf(),
    {
        Cpu { registers: Registers::new(), context: Context::new() }
    }

    /// Reads the opcode at the program counter, moves the program counter past it, and starts
    /// a new instruction.
    pub fn fetch(&mut self, bus: &Peripherals)
        requires
            bus.wf(),
        ensures
            *final(self) == fetched(*old(self), bus@),
    {
        self.context.opcode = bus.read(self.registers.pc);
        self.registers.pc = inc(self.registers.pc);
        self.context.cb = false;
        self.context.prefix_pending = false;
        self.context.in_flight = true;
        self.context.step = 0;
    }

    /// Runs the handler of the opcode in flight for one cycle. The opcode must have a handler
    /// or be the prefix; `check_cycle` tells beforehand.
    pub fn decode(&mut self, bus: &mut Peripherals)
        requires
            old(bus).wf(),
            decodable(old(self).context),
        ensures
            final(bus).wf(),
            decode_spec(*old(self), old(bus)@, *final(self), final(bus)@),
    {
        if self.context.prefix_pending {
            self.context.opcode = bus.read(self.registers.pc);
            self.registers.pc = inc(self.registers.pc);
            self.context.cb = true;
            self.context.prefix_pending = false;
            self.context.step = 0;
        } else if !self.context.cb && self.context.opcode == CB_PREFIX {
            self.context.prefix_pending = true;
        } else {
            self.nop(bus);
        }
    }

    /// Does nothing and completes at once: its only cost is the cycle of its fetch.
    pub fn nop(&mut self, bus: &mut Peripherals)
        ensures
            *final(self) == completed(*old(self)),
            final(bus)@ == old(bus)@,
    {
        self.context.in_flight = false;
        self.context.step = 0;
    }

    /// The fault that the next cycle would meet: `Some` exactly when the opcode it would decode
    /// has no handler. Emulation halts there.
    pub fn check_cycle(&self, bus: &Peripherals) -> (r: Option<CpuError>)
        requires
            bus.wf(),
        ensures
            r == cycle_fault(*self, bus@),
    {
        let (opcode, cb, pending, pc) = if self.context.in_flight {
            (self.context.opcode, self.context.cb, self.context.prefix_pending, self.registers.pc)
        } else {
            (bus.read(self.registers.pc), false, false, inc(self.registers.pc))
        };
        if pending || (!cb && opcode == CB_PREFIX) || (!cb && opcode == NOP) {
            None
        } else {
            Some(CpuError::Unimplemented { opcode, cb, pc: dec(pc) })
        }
    }

    /// Advances the processor by one M-cycle, with at most one bus access. The opcode that the
    /// cycle decodes must have a handler: `check_cycle` tells beforehand.
    pub fn emulate_cycle(&mut self, bus: &mut Peripherals)
        requires
            old(bus).wf(),
            cycle_fault(*old(self), old(bus)@) is None,
        ensures
            final(bus).wf(),
            cycle_spec(*old(self), old(bus)@, *final(self), final(bus)@),
    {
        if !self.context.in_flight {
            self.fetch(bus);
        }
        self.decode(bus)
    }
}

/// A cycle with no instruction in flight and a NOP at the program counter moves the program
/// counter on by one, changes no other register and no memory, and leaves nothing in flight,
/// so that the next cycle fetches again.
pub proof fn lemma_nop_cycle(s0: Cpu, bus: Seq<u8>, s1: Cpu, bus1: Seq<u8>)
    requires
        !s0.context.in_flight,
        bus[s0.registers.pc as int] == NOP,
        cycle_spec(s0, bus, s1, bus1),
    ensures
        cycle_fault(s0, bus) is None,
        s1.registers == (Registers { pc: inc16(s0.registers.pc), ..s0.registers }),
        bus1 == bus,
        !s1.context.in_flight,
        s1.context.step == 0,
{
}

/// An opcode without a handler is a fault before any cycle decodes it: `check_cycle` names
/// the opcode and the address it was fetched from, and `emulate_cycle` does not accept the
/// state. Idle, the opcode is the one at the program counter.
pub proof fn lemma_unmapped_faults(s: Cpu, bus: Seq<u8>)
    requires
        s.context.in_flight ==> !decodable(s.context),
        !s.context.in_flight ==> bus[s.registers.pc as int] != CB_PREFIX && !is_mapped(
            bus[s.registers.pc as int],
            false,
        ),
    ensures
        s.context.in_flight ==> cycle_fault(s, bus) == Some(
            CpuError::Unimplemented {
                opcode: s.context.opcode,
                cb: s.context.cb,
                pc: dec16(s.registers.pc),
            },
        ),
        !s.context.in_flight ==> cycle_fault(s, bus) == Some(
            CpuError::Unimplemented {
                opcode: bus[s.registers.pc as int],
                cb: false,
                pc: s.registers.pc,
            },
        ),
{
}

/// The prefix costs a cycle of its own: the cycle that fetches it reads nothing more and
/// leaves the program counter just past it; the next cycle reads the opcode after it, one
/// byte, and moves the program counter past that.
pub proof fn lemma_prefix_cycles(
    s0: Cpu,
    bus: Seq<u8>,
    s1: Cpu,
    bus1: Seq<u8>,
    s2: Cpu,
    bus2: Seq<u8>,
)
    requires
        !s0.context.in_flight,
        bus[s0.registers.pc as int] == CB_PREFIX,
        cycle_spec(s0, bus, s1, bus1),
        cycle_spec(s1, bus1, s2, bus2),
    ensures
        s1.registers.pc == inc16(s0.registers.pc),
        s1.context.prefix_pending && s1.context.in_flight,
        bus1 == bus,
        s2.registers.pc == inc16(inc16(s0.registers.pc)),
        s2.context.opcode == bus[inc16(s0.registers.pc) as int],
        s2.context.cb && !s2.context.prefix_pending && s2.context.in_flight,
        bus2 == bus,
{
}

} // verus!
