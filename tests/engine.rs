use gbemu::boot_rom::BootROM;
use gbemu::cpu::{Cpu, CpuError};
use gbemu::gameboy::{due_cycles, M_CYCLE_NANOS};
use gbemu::peripherals::Peripherals;

#[test]
fn nop_takes_one_cycle() {
    let mut bus = Peripherals::new();
    bus.write(0xC000, 0x55);
    let mut cpu = Cpu::new();
    cpu.registers.pc = 0x0100;
    cpu.registers.a = 7;
    let before = cpu.registers;
    assert_eq!(cpu.check_cycle(&bus), None);
    cpu.emulate_cycle(&mut bus);
    assert_eq!(cpu.registers.pc, 0x0101);
    assert_eq!(cpu.registers.a, before.a);
    assert_eq!(cpu.registers.f, before.f);
    assert_eq!(bus.read(0xC000), 0x55);
    assert!(!cpu.context.in_flight);
    cpu.emulate_cycle(&mut bus);
    assert_eq!(cpu.registers.pc, 0x0102);
}

#[test]
fn unmapped_opcode_is_a_fault() {
    let mut bus = Peripherals::new();
    bus.write(0x0000, 0xD3);
    let mut cpu = Cpu::new();
    let r = cpu.check_cycle(&bus);
    assert_eq!(r, Some(CpuError::Unimplemented { opcode: 0xD3, cb: false, pc: 0 }));
    assert_eq!(cpu.registers.pc, 0);
    cpu.fetch(&bus);
    let r = cpu.check_cycle(&bus);
    assert_eq!(r, Some(CpuError::Unimplemented { opcode: 0xD3, cb: false, pc: 0 }));
    assert_eq!(cpu.registers.a, 0);
    assert_eq!(cpu.registers.pc, 1);
}

#[test]
fn fetch_then_decode() {
    let mut bus = Peripherals::new();
    bus.write(0x0010, 0x00);
    let mut cpu = Cpu::new();
    cpu.registers.pc = 0x0010;
    cpu.fetch(&bus);
    assert_eq!(cpu.context.opcode, 0x00);
    assert!(cpu.context.in_flight && !cpu.context.cb);
    assert_eq!(cpu.registers.pc, 0x0011);
    cpu.decode(&mut bus);
    assert!(!cpu.context.in_flight);
}

#[test]
fn program_counter_wraps() {
    let mut bus = Peripherals::new();
    let mut cpu = Cpu::new();
    cpu.registers.pc = 0xFFFF;
    cpu.emulate_cycle(&mut bus);
    assert_eq!(cpu.registers.pc, 0x0000);
}

#[test]
fn boot_rom_reads_its_bytes() {
    let rom = BootROM::new(vec![0x31, 0xFE, 0xFF].into_boxed_slice());
    assert_eq!(rom.read(0), 0x31);
    assert_eq!(rom.read(2), 0xFF);
}

#[test]
fn m_cycle_length() {
    assert_eq!(M_CYCLE_NANOS, 953);
}

#[test]
fn due_cycles_keeps_remainder() {
    assert_eq!(due_cycles(0, 0), (0, 0));
    assert_eq!(due_cycles(952, 0), (0, 0));
    assert_eq!(due_cycles(953, 0), (1, 953));
    assert_eq!(due_cycles(10_000, 953), (9, 9530));
}

#[test]
fn prefix_takes_its_own_cycle() {
    let mut bus = Peripherals::new();
    bus.write(0x0000, 0xCB);
    bus.write(0x0001, 0x7C);
    let mut cpu = Cpu::new();
    assert_eq!(cpu.check_cycle(&bus), None);
    cpu.emulate_cycle(&mut bus);
    assert_eq!(cpu.registers.pc, 1);
    assert_eq!(cpu.context.opcode, 0xCB);
    assert!(cpu.context.in_flight && cpu.context.prefix_pending && !cpu.context.cb);
    assert_eq!(cpu.check_cycle(&bus), None);
    cpu.emulate_cycle(&mut bus);
    assert_eq!(cpu.registers.pc, 2);
    assert_eq!(cpu.context.opcode, 0x7C);
    assert!(cpu.context.in_flight && cpu.context.cb && !cpu.context.prefix_pending);
    let r = cpu.check_cycle(&bus);
    assert_eq!(r, Some(CpuError::Unimplemented { opcode: 0x7C, cb: true, pc: 1 }));
}
