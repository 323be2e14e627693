pub mod boot_rom;
pub mod cpu;
pub mod gameboy;
pub mod operand;
pub mod peripherals;
pub mod registers;
