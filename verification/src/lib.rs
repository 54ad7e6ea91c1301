pub mod bits;
pub mod cartridge;
pub mod cpu;
pub mod debugger;
pub mod gameboy;
pub mod host;
pub mod instructions;
pub mod laws;
pub mod mmu;
