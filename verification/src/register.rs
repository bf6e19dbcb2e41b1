//! The register file: eight 8-bit registers, the two 16-bit pointers, and
//! the flag byte.
//!
//! The four condition flags live in the high nibble of `f`:
//! Zero (bit 7), Subtract (bit 6), Half-carry (bit 5), Carry (bit 4).
//! The low nibble of `f` is architecturally always zero.

use vstd::prelude::*;
use crate::arith::{pair, hi8, lo8};

verus! {

/// The flag byte assembled from the four condition flags.
pub open spec fn flags_byte(z: bool, n: bool, h: bool, c: bool) -> u8 {
    ((if z {
        0x80int
    } else {
        0
    }) + (if n {
        0x40int
    } else {
        0
    }) + (if h {
        0x20int
    } else {
        0
    }) + (if c {
        0x10int
    } else {
        0
    })) as u8
}

/// The Zero flag, bit 7 of the flag byte.
pub open spec fn z_of(f: u8) -> bool {
    f & 0x80 != 0
}

/// The Subtract flag, bit 6 of the flag byte.
pub open spec fn n_of(f: u8) -> bool {
    f & 0x40 != 0
}

/// The Half-carry flag, bit 5 of the flag byte.
pub open spec fn h_of(f: u8) -> bool {
    f & 0x20 != 0
}

/// The Carry flag, bit 4 of the flag byte.
pub open spec fn c_of(f: u8) -> bool {
    f & 0x10 != 0
}

/// A well-formed flag byte has an all-zero low nibble.
pub open spec fn f_wf(f: u8) -> bool {
    f & 0x0F == 0
}

/// Reading the four flags back out of an assembled flag byte yields the
/// flags it was assembled from, and the result is well-formed.
pub proof fn lemma_flags_byte(z: bool, n: bool, h: bool, c: bool)
    ensures
        z_of(flags_byte(z, n, h, c)) == z,
        n_of(flags_byte(z, n, h, c)) == n,
        h_of(flags_byte(z, n, h, c)) == h,
        c_of(flags_byte(z, n, h, c)) == c,
        f_wf(flags_byte(z, n, h, c)),
{
    let f = flags_byte(z, n, h, c);
    assert((f & 0x80 != 0) == z && (f & 0x40 != 0) == n && (f & 0x20 != 0) == h && (f & 0x10
        != 0) == c && f & 0x0F == 0) by (bit_vector)
        requires
            f == (if z {
                0x80u8
            } else {
                0u8
            }) + (if n {
                0x40u8
            } else {
                0u8
            }) + (if h {
                0x20u8
            } else {
                0u8
            }) + (if c {
                0x10u8
            } else {
                0u8
            }),
    ;
}

/// A well-formed flag byte is exactly the assembly of the four flags read
/// out of it.
pub proof fn lemma_flags_byte_ext(f: u8)
    requires
        f_wf(f),
    ensures
        flags_byte(z_of(f), n_of(f), h_of(f), c_of(f)) == f,
{
    assert((if f & 0x80 != 0 {
        0x80u8
    } else {
        0u8
    }) + (if f & 0x40 != 0 {
        0x40u8
    } else {
        0u8
    }) + (if f & 0x20 != 0 {
        0x20u8
    } else {
        0u8
    }) + (if f & 0x10 != 0 {
        0x10u8
    } else {
        0u8
    }) == f) by (bit_vector)
        requires
            f & 0x0F == 0,
    ;
}

/// Masking a byte to its high nibble keeps all four flag bits and yields a
/// well-formed flag byte.
pub proof fn lemma_mask_high_nibble(x: u8)
    ensures
        z_of(x & 0xF0) == z_of(x),
        n_of(x & 0xF0) == n_of(x),
        h_of(x & 0xF0) == h_of(x),
        c_of(x & 0xF0) == c_of(x),
        f_wf(x & 0xF0),
{
    assert(((x & 0xF0) & 0x80 == x & 0x80) && ((x & 0xF0) & 0x40 == x & 0x40) && ((x & 0xF0) & 0x20
        == x & 0x20) && ((x & 0xF0) & 0x10 == x & 0x10) && ((x & 0xF0) & 0x0F == 0)) by (bit_vector);
}

/// One of the four condition flags.
pub enum Flag {
    Z,
    N,
    H,
    C,
}

/// The register file: program counter, stack pointer and the eight 8-bit
/// registers. The four pairs AF, BC, DE and HL are derived views over the
/// 8-bit halves.
#[derive(Copy, Clone)]
pub struct Register {
    pub pc: u16,
    pub sp: u16,
    pub a: u8,
    pub b: u8,
    pub c: u8,
    pub d: u8,
    pub e: u8,
    pub f: u8,
    pub h: u8,
    pub l: u8,
}

impl Register {
    /// AF: accumulator in the high byte, flag byte in the low byte.
    pub fn get_af(&self) -> (r: u16)
        ensures
            r == pair(self.a, self.f),
    {
        self.a as u16 * 256 + self.f as u16
    }

    /// Splits a 16-bit value into A and F. The low nibble of F is
    /// architecturally always zero, so it is masked off here.
    pub fn set_af(&mut self, val: u16)
        ensures
            *final(self) == (Register { a: hi8(val), f: lo8(val) & 0xF0, ..*old(self) }),
    {
        self.a = (val / 256) as u8;
        self.f = ((val % 256) as u8) & 0xF0;
    }

    pub fn get_bc(&self) -> (r: u16)
        ensures
            r == pair(self.b, self.c),
    {
        self.b as u16 * 256 + self.c as u16
    }

    /// Splits a 16-bit value into B (high byte) and C (low byte).
    pub fn set_bc(&mut self, val: u16)
        ensures
            *final(self) == (Register { b: hi8(val), c: lo8(val), ..*old(self) }),
    {
        self.b = (val / 256) as u8;
        self.c = (val % 256) as u8;
    }

    pub fn get_de(&self) -> (r: u16)
        ensures
            r == pair(self.d, self.e),
    {
        self.d as u16 * 256 + self.e as u16
    }

    /// Splits a 16-bit value into D (high byte) and E (low byte).
    pub fn set_de(&mut self, val: u16)
        ensures
            *final(self) == (Register { d: hi8(val), e: lo8(val), ..*old(self) }),
    {
        self.d = (val / 256) as u8;
        self.e = (val % 256) as u8;
    }

    pub fn get_hl(&self) -> (r: u16)
        ensures
            r == pair(self.h, self.l),
    {
        self.h as u16 * 256 + self.l as u16
    }

    /// Splits a 16-bit value into H (high byte) and L (low byte).
    pub fn set_hl(&mut self, val: u16)
        ensures
            *final(self) == (Register { h: hi8(val), l: lo8(val), ..*old(self) }),
    {
        self.h = (val / 256) as u8;
        self.l = (val % 256) as u8;
    }
}

impl Default for Register {
    /// The architectural power-on state: `pc = 0x100`, `sp = 0xFFFE`, all
    /// other registers zero.
    fn default() -> (r: Register)
        ensures
            r == (Register {
                pc: 0x100,
                sp: 0xFFFE,
                a: 0,
                b: 0,
                c: 0,
                d: 0,
                e: 0,
                f: 0,
                h: 0,
                l: 0,
            }),
    {
        Register { pc: 0x100, sp: 0xFFFE, a: 0, b: 0, c: 0, d: 0, e: 0, f: 0, h: 0, l: 0 }
    }
}

} // verus!
