//! A CHIP-8 virtual machine core: memory, registers, call stack, timers and a
//! monochrome framebuffer, driven one tick at a time by the embedding host.

pub mod cpu;
pub mod fault;
pub mod font;
pub mod laws;
pub mod op;
pub mod state;
