use gbemu::cpu::Cpu;
use gbemu::operand::{Access, Cond, Direct16, Direct8, Imm16, Imm8, Indirect, Reg16, Reg8, IO16, IO8};
use gbemu::peripherals::Peripherals;

#[test]
fn register_operands_complete_at_once() {
    let mut bus = Peripherals::new();
    let mut cpu = Cpu::new();
    assert_eq!(cpu.write8(&mut bus, Reg8::H, 0x42), Some(()));
    assert_eq!(cpu.read8(&bus, Reg8::H), Some(0x42));
    assert_eq!(cpu.registers.h, 0x42);
    assert_eq!(cpu.write16(&mut bus, Reg16::SP, 0xFFFE), Some(()));
    assert_eq!(cpu.read16(&bus, Reg16::SP), Some(0xFFFE));
    assert_eq!(cpu.write16(&mut bus, Reg16::AF, 0x12FF), Some(()));
    assert_eq!(cpu.read16(&bus, Reg16::AF), Some(0x12F0));
    assert_eq!(cpu.context.step, 0);
}

#[test]
fn reg16_round_trip() {
    let mut bus = Peripherals::new();
    let mut cpu = Cpu::new();
    for m in [Reg16::BC, Reg16::DE, Reg16::HL, Reg16::SP] {
        for v in [0x0000u16, 0x1234, 0xC001, 0xFFFF] {
            cpu.write16(&mut bus, m, v);
            assert_eq!(cpu.read16(&bus, m), Some(v));
        }
    }
}

#[test]
fn imm8_takes_one_cycle() {
    let mut bus = Peripherals::new();
    bus.write(0x0150, 0x3C);
    let mut cpu = Cpu::new();
    cpu.registers.pc = 0x0150;
    assert_eq!(cpu.read8(&bus, Imm8), None);
    assert_eq!(cpu.registers.pc, 0x0151);
    assert_eq!(cpu.read8(&bus, Imm8), Some(0x3C));
    assert_eq!(cpu.registers.pc, 0x0151);
    assert_eq!(cpu.context.step, 0);
}

#[test]
fn imm16_is_little_endian_over_two_cycles() {
    let mut bus = Peripherals::new();
    bus.write(0x0100, 0x34);
    bus.write(0x0101, 0x12);
    let mut cpu = Cpu::new();
    cpu.registers.pc = 0x0100;
    assert_eq!(cpu.read16(&bus, Imm16), None);
    assert_eq!(cpu.read16(&bus, Imm16), None);
    assert_eq!(cpu.read16(&bus, Imm16), Some(0x1234));
    assert_eq!(cpu.registers.pc, 0x0102);
    assert_eq!(cpu.context.step, 0);
}

#[test]
fn hli_write_increments_hl() {
    let mut bus = Peripherals::new();
    let mut cpu = Cpu::new();
    cpu.registers.write_hl(0xC000);
    assert_eq!(cpu.write8(&mut bus, Indirect::HLI, 0x5A), None);
    assert_eq!(cpu.registers.hl(), 0xC001);
    assert_eq!(cpu.write8(&mut bus, Indirect::HLI, 0x5A), Some(()));
    assert_eq!(bus.read(0xC000), 0x5A);
    assert_eq!(cpu.registers.hl(), 0xC001);
    assert_eq!(cpu.context.step, 0);
}

#[test]
fn hld_read_decrements_hl() {
    let mut bus = Peripherals::new();
    bus.write(0xC000, 0x77);
    let mut cpu = Cpu::new();
    cpu.registers.write_hl(0xC000);
    assert_eq!(cpu.read8(&bus, Indirect::HLD), None);
    assert_eq!(cpu.read8(&bus, Indirect::HLD), Some(0x77));
    assert_eq!(cpu.registers.hl(), 0xBFFF);
}

#[test]
fn hld_wraps_below_zero() {
    let mut bus = Peripherals::new();
    let mut cpu = Cpu::new();
    cpu.registers.write_hl(0x0000);
    cpu.read8(&bus, Indirect::HLD);
    cpu.read8(&bus, Indirect::HLD);
    assert_eq!(cpu.registers.hl(), 0xFFFF);
    cpu.write8(&mut bus, Indirect::HLI, 1);
    cpu.write8(&mut bus, Indirect::HLI, 1);
    assert_eq!(bus.read(0xFFFF), 1);
    assert_eq!(cpu.registers.hl(), 0x0000);
}

#[test]
fn indirect_through_pairs_and_cff() {
    let mut bus = Peripherals::new();
    bus.write(0x1234, 0x11);
    bus.write(0xFF44, 0x22);
    let mut cpu = Cpu::new();
    cpu.registers.write_bc(0x1234);
    cpu.registers.c = 0x34;
    assert_eq!(cpu.read8(&bus, Indirect::BC), None);
    assert_eq!(cpu.read8(&bus, Indirect::BC), Some(0x11));
    cpu.registers.c = 0x44;
    assert_eq!(cpu.read8(&bus, Indirect::CFF), None);
    assert_eq!(cpu.read8(&bus, Indirect::CFF), Some(0x22));
    cpu.registers.write_de(0xD000);
    cpu.write8(&mut bus, Indirect::DE, 0x99);
    cpu.write8(&mut bus, Indirect::DE, 0x99);
    assert_eq!(bus.read(0xD000), 0x99);
    assert_eq!(cpu.registers.de(), 0xD000);
}

#[test]
fn direct8_reads_address_then_memory() {
    let mut bus = Peripherals::new();
    bus.write(0x0000, 0x00);
    bus.write(0x0001, 0xC1);
    bus.write(0xC100, 0xAB);
    let mut cpu = Cpu::new();
    assert_eq!(cpu.read8(&bus, Direct8::D), None);
    assert_eq!(cpu.read8(&bus, Direct8::D), None);
    assert_eq!(cpu.read8(&bus, Direct8::D), None);
    assert_eq!(cpu.read8(&bus, Direct8::D), Some(0xAB));
    assert_eq!(cpu.registers.pc, 2);
    assert_eq!(cpu.context.step, 0);
}

#[test]
fn direct8_high_page_takes_two_cycles() {
    let mut bus = Peripherals::new();
    bus.write(0x0000, 0x80);
    let mut cpu = Cpu::new();
    assert_eq!(cpu.write8(&mut bus, Direct8::DFF, 0x5C), None);
    assert_eq!(cpu.write8(&mut bus, Direct8::DFF, 0x5C), None);
    assert_eq!(cpu.write8(&mut bus, Direct8::DFF, 0x5C), Some(()));
    assert_eq!(bus.read(0xFF80), 0x5C);
    assert_eq!(cpu.registers.pc, 1);
}

#[test]
fn direct16_writes_low_byte_first() {
    let mut bus = Peripherals::new();
    bus.write(0x0000, 0x10);
    bus.write(0x0001, 0xC0);
    let mut cpu = Cpu::new();
    for _ in 0..4 {
        assert_eq!(cpu.write16(&mut bus, Direct16, 0xBEEF), None);
    }
    assert_eq!(cpu.write16(&mut bus, Direct16, 0xBEEF), Some(()));
    assert_eq!(bus.read(0xC010), 0xEF);
    assert_eq!(bus.read(0xC011), 0xBE);
    assert_eq!(cpu.registers.pc, 2);
}

#[test]
fn conditions_follow_flags() {
    let mut cpu = Cpu::new();
    assert!(cpu.cond(Cond::NZ) && cpu.cond(Cond::NC));
    assert!(!cpu.cond(Cond::Z) && !cpu.cond(Cond::C));
    cpu.registers.write_zf(true);
    assert!(cpu.cond(Cond::Z) && !cpu.cond(Cond::NZ));
    cpu.registers.write_cf(true);
    assert!(cpu.cond(Cond::C) && !cpu.cond(Cond::NC));
}

#[test]
fn step_marker_records_its_owner() {
    let mut bus = Peripherals::new();
    let mut cpu = Cpu::new();
    assert_eq!(cpu.context.owner, None);
    cpu.read16(&bus, Imm16);
    assert_eq!(cpu.context.step, 1);
    assert_eq!(cpu.context.owner, Some(Access::ReadImm16));
    cpu.read16(&bus, Imm16);
    cpu.read16(&bus, Imm16);
    assert_eq!(cpu.context.step, 0);
    cpu.write8(&mut bus, Indirect::HLD, 3);
    assert_eq!(cpu.context.owner, Some(Access::WriteIndirect(Indirect::HLD)));
    cpu.write8(&mut bus, Indirect::HLD, 3);
    assert_eq!(cpu.context.step, 0);
}
