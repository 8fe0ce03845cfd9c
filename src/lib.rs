//! A Famicom / NES emulator core: a cycle-counted 6502-family processor, a
//! dot-stepped picture processing unit and the bus that couples them.

pub mod bits;
pub mod cart;
pub mod mapper;
pub mod mem;
pub mod ppu_regs;
pub mod tile;
pub mod ppu;
pub mod ppu_ports;
pub mod ppu_render;
pub mod cpu;
pub mod cpu_addr;
pub mod inst;
pub mod inst_exec;
pub mod cpu_run;
pub mod fc;
pub mod dbg;
pub mod ppu_debug;
