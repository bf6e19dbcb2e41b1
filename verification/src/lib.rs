//! A verified core of a Game-Boy-class (Z80-derived) 8-bit CPU.
//!
//! The crate models the machine as a mathematical state (`cpu::CpuView`:
//! registers, the four condition flags and a 64 KiB byte memory) and proves
//! that every executable operation — the arithmetic/logic unit, the register
//! file, the memory bus and the instruction dispatcher — performs exactly the
//! transition that the specification-level interpreter describes.

pub mod arith;
pub mod register;
pub mod mmu;
pub mod cpu;
pub mod alu;
pub mod dispatch;
pub mod gb;
