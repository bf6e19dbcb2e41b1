//! The memory bus: a flat 64 KiB byte store addressed by `u16`, with
//! little-endian half-word access.
//!
//! Every address is always readable and writable; a half-word that starts at
//! `0xFFFF` wraps around to address `0`.

use vstd::prelude::*;
use crate::arith::{pair, hi8, lo8, wadd16};

verus! {

/// The number of addressable bytes.
pub const MEM_SIZE: usize = 0x10000;

/// The byte stored at `addr`.
pub open spec fn byte_at(m: Seq<u8>, addr: u16) -> u8 {
    m[addr as int]
}

/// The memory after storing `v` at `addr`.
pub open spec fn byte_write(m: Seq<u8>, addr: u16, v: u8) -> Seq<u8> {
    m.update(addr as int, v)
}

/// The little-endian half-word at `addr`: low byte at `addr`, high byte at
/// `addr + 1` (wrapping).
pub open spec fn word_at(m: Seq<u8>, addr: u16) -> u16 {
    pair(byte_at(m, wadd16(addr, 1)), byte_at(m, addr))
}

/// The memory after a little-endian half-word store of `v` at `addr`.
pub open spec fn word_write(m: Seq<u8>, addr: u16, v: u16) -> Seq<u8> {
    byte_write(byte_write(m, addr, lo8(v)), wadd16(addr, 1), hi8(v))
}

/// The memory management unit: the flat byte store the CPU fetches from and
/// stores to. Its view is the sequence of all 0x10000 bytes.
pub struct MMUnit {
    data: Vec<u8>,
}

impl View for MMUnit {
    type V = Seq<u8>;

    closed spec fn view(&self) -> Seq<u8> {
        self.data@
    }
}

impl MMUnit {
    /// Well-formedness: the store holds exactly 0x10000 bytes, so the
    /// address space is total.
    pub closed spec fn wf(&self) -> bool {
        self.data@.len() == MEM_SIZE
    }

    /// A well-formed store holds exactly 0x10000 bytes.
    pub proof fn lemma_wf_len(&self)
        requires
            self.wf(),
        ensures
            self@.len() == MEM_SIZE,
    {
    }

    /// Stores one byte.
    pub fn set(&mut self, addr: u16, val: u8)
        requires
            old(self).wf(),
        ensures
            final(self).wf(),
            final(self)@ == byte_write(old(self)@, addr, val),
    {
        self.data[addr as usize] = val;
    }

    /// Loads one byte.
    pub fn get(&self, addr: u16) -> (r: u8)
        requires
            self.wf(),
        ensures
            r == byte_at(self@, addr),
    {
        self.data[addr as usize]
    }

    /// Loads a little-endian half-word: low byte at `addr`, high byte at
    /// `addr + 1` (wrapping).
    pub fn get_hw(&self, addr: u16) -> (r: u16)
        requires
            self.wf(),
        ensures
            r == word_at(self@, addr),
    {
        let lo = self.get(addr);
        let hi = self.get(addr.wrapping_add(1));
        hi as u16 * 256 + lo as u16
    }

    /// Stores a little-endian half-word: low byte at `addr`, high byte at
    /// `addr + 1` (wrapping).
    pub fn set_hw(&mut self, addr: u16, val: u16)
        requires
            old(self).wf(),
        ensures
            final(self).wf(),
            final(self)@ == word_write(old(self)@, addr, val),
    {
        self.set(addr, (val % 256) as u8);
        self.set(addr.wrapping_add(1), (val / 256) as u8);
    }

    /// Copies a ROM image into the bottom of the address space, leaving the
    /// rest of memory untouched. Reading the image from disk is a
    /// collaborator's concern; the core only takes the bytes.
    pub fn load_rom(&mut self, rom: &Vec<u8>)
        requires
            old(self).wf(),
            rom@.len() <= MEM_SIZE,
        ensures
            final(self).wf(),
            forall|i: int| 0 <= i < rom@.len() ==> final(self)@[i] == rom@[i],
            forall|i: int| rom@.len() <= i < MEM_SIZE ==> final(self)@[i] == old(self)@[i],
    {
        let mut i: usize = 0;
        while i < rom.len()
            invariant
                i <= rom@.len(),
                rom@.len() <= MEM_SIZE,
                self.wf(),
                forall|j: int| 0 <= j < i ==> self@[j] == rom@[j],
                forall|j: int| i <= j < MEM_SIZE ==> self@[j] == old(self)@[j],
            decreases rom@.len() - i,
        {
            self.set(i as u16, rom[i]);
            i += 1;
        }
    }
}

impl Default for MMUnit {
    /// A zero-filled 64 KiB store.
    fn default() -> (r: MMUnit)
        ensures
            r.wf(),
            forall|i: int| 0 <= i < MEM_SIZE ==> r@[i] == 0u8,
    {
        let mut data: Vec<u8> = Vec::new();
        let mut i: usize = 0;
        while i < MEM_SIZE
            invariant
                i <= MEM_SIZE,
                data@.len() == i,
                forall|j: int| 0 <= j < i ==> data@[j] == 0u8,
            decreases MEM_SIZE - i,
        {
            data.push(0);
            i += 1;
        }
        MMUnit { data }
    }
}

} // verus!
