//! The console aggregate: one CPU (which owns its register file and bus).
//!
//! Reading a cartridge image from disk is a collaborator's concern; the
//! core only takes the bytes and places them at the bottom of the address
//! space before stepping begins.

use vstd::prelude::*;
use crate::cpu::CPU;
use crate::mmu::MEM_SIZE;

verus! {

/// The whole machine: exactly one CPU with its own bus.
pub struct GameBoy {
    pub cpu: CPU,
}

impl GameBoy {
    /// Places a ROM image at the bottom of the address space. Registers
    /// and the rest of memory are untouched.
    pub fn load_rom(&mut self, rom: &Vec<u8>)
        requires
            old(self).cpu.wf(),
            rom@.len() <= MEM_SIZE,
        ensures
            final(self).cpu.wf(),
            final(self).cpu.reg == old(self).cpu.reg,
            forall|i: int| 0 <= i < rom@.len() ==> final(self).cpu@.mem[i] == rom@[i],
            forall|i: int|
                rom@.len() <= i < MEM_SIZE ==> final(self).cpu@.mem[i] == old(self).cpu@.mem[i],
    {
        self.cpu.mem.load_rom(rom);
    }
}

impl Default for GameBoy {
    /// A machine in the architectural power-on state.
    fn default() -> (r: GameBoy)
        ensures
            r.cpu.wf(),
            r.cpu@.pc == 0x100,
            r.cpu@.sp == 0xFFFE,
            r.cpu@.a == 0 && r.cpu@.b == 0 && r.cpu@.c == 0 && r.cpu@.d == 0 && r.cpu@.e == 0
                && r.cpu@.h == 0 && r.cpu@.l == 0,
            !r.cpu@.zf && !r.cpu@.nf && !r.cpu@.hf && !r.cpu@.cf,
            forall|i: int| 0 <= i < MEM_SIZE ==> r.cpu@.mem[i] == 0u8,
    {
        GameBoy { cpu: CPU::default() }
    }
}

} // verus!
