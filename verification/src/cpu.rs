//! The CPU: one register file and one memory bus, together with the
//! mathematical view (`CpuView`) that all contracts are stated over.

use vstd::prelude::*;
use crate::arith::{pair, hi8, lo8, wadd16, wsub16};
use crate::register::{Register, Flag, flags_byte, z_of, n_of, h_of, c_of, f_wf};
use crate::mmu::{MMUnit, MEM_SIZE, byte_at, word_at, word_write};

verus! {

/// The mathematical state of the machine: the two 16-bit pointers, the
/// eight 8-bit registers, the four condition flags, and all of memory.
#[verifier::ext_equal]
pub ghost struct CpuView {
    pub pc: u16,
    pub sp: u16,
    pub a: u8,
    pub b: u8,
    pub c: u8,
    pub d: u8,
    pub e: u8,
    pub h: u8,
    pub l: u8,
    pub zf: bool,
    pub nf: bool,
    pub hf: bool,
    pub cf: bool,
    pub mem: Seq<u8>,
}

/// The flag byte of a state.
pub open spec fn f_byte(s: CpuView) -> u8 {
    flags_byte(s.zf, s.nf, s.hf, s.cf)
}

/// The AF pair of a state.
pub open spec fn af_of(s: CpuView) -> u16 {
    pair(s.a, f_byte(s))
}

/// The BC pair of a state.
pub open spec fn bc_of(s: CpuView) -> u16 {
    pair(s.b, s.c)
}

/// The DE pair of a state.
pub open spec fn de_of(s: CpuView) -> u16 {
    pair(s.d, s.e)
}

/// The HL pair of a state.
pub open spec fn hl_of(s: CpuView) -> u16 {
    pair(s.h, s.l)
}

/// The byte an immediate fetch at the current program counter returns.
pub open spec fn imv(s: CpuView) -> u8 {
    byte_at(s.mem, s.pc)
}

/// The state after an immediate byte fetch: the program counter has moved
/// past the operand.
pub open spec fn imn(s: CpuView) -> CpuView {
    CpuView { pc: wadd16(s.pc, 1), ..s }
}

/// The half-word an immediate 16-bit fetch at the current program counter
/// returns.
pub open spec fn imv16(s: CpuView) -> u16 {
    word_at(s.mem, s.pc)
}

/// The state after an immediate 16-bit fetch.
pub open spec fn imn16(s: CpuView) -> CpuView {
    CpuView { pc: wadd16(s.pc, 2), ..s }
}

/// The state after pushing a half-word: the stack pointer moves down by two
/// and the value is stored at the new stack pointer.
pub open spec fn spush(s: CpuView, v: u16) -> CpuView {
    CpuView { sp: wsub16(s.sp, 2), mem: word_write(s.mem, wsub16(s.sp, 2), v), ..s }
}

/// The half-word a pop returns: the value at the current stack pointer.
pub open spec fn spop_val(s: CpuView) -> u16 {
    word_at(s.mem, s.sp)
}

/// The state after a pop: the stack pointer moves up by two.
pub open spec fn spop_next(s: CpuView) -> CpuView {
    CpuView { sp: wadd16(s.sp, 2), ..s }
}

/// The state after loading a half-word into AF: the accumulator takes the
/// high byte and the flags are read from the low byte (whose low nibble the
/// register file masks off).
pub open spec fn with_af(s: CpuView, v: u16) -> CpuView {
    CpuView {
        a: hi8(v),
        zf: z_of(lo8(v)),
        nf: n_of(lo8(v)),
        hf: h_of(lo8(v)),
        cf: c_of(lo8(v)),
        ..s
    }
}

/// The CPU: owns the register file and the memory bus. All state
/// transitions go through the dispatcher and the ALU operations.
pub struct CPU {
    pub reg: Register,
    pub mem: MMUnit,
}

impl View for CPU {
    type V = CpuView;

    open spec fn view(&self) -> CpuView {
        CpuView {
            pc: self.reg.pc,
            sp: self.reg.sp,
            a: self.reg.a,
            b: self.reg.b,
            c: self.reg.c,
            d: self.reg.d,
            e: self.reg.e,
            h: self.reg.h,
            l: self.reg.l,
            zf: z_of(self.reg.f),
            nf: n_of(self.reg.f),
            hf: h_of(self.reg.f),
            cf: c_of(self.reg.f),
            mem: self.mem@,
        }
    }
}

impl CPU {
    /// Well-formedness: the flag byte's low nibble is zero and the bus
    /// holds the full address space.
    pub open spec fn wf(&self) -> bool {
        f_wf(self.reg.f) && self.mem.wf()
    }

    /// Fetches the byte at the program counter and advances past it.
    pub fn imm(&mut self) -> (r: u8)
        requires
            old(self).wf(),
        ensures
            final(self).wf(),
            r == imv(old(self)@),
            final(self)@ == imn(old(self)@),
    {
        let val = self.mem.get(self.reg.pc);
        self.reg.pc = self.reg.pc.wrapping_add(1);
        val
    }

    /// Fetches the little-endian half-word at the program counter and
    /// advances past it.
    pub fn imm_hw(&mut self) -> (r: u16)
        requires
            old(self).wf(),
        ensures
            final(self).wf(),
            r == imv16(old(self)@),
            final(self)@ == imn16(old(self)@),
    {
        let val = self.mem.get_hw(self.reg.pc);
        self.reg.pc = self.reg.pc.wrapping_add(2);
        val
    }

    /// Pushes a half-word: the stack pointer moves down by two (wrapping)
    /// and the value is stored there.
    pub fn stack_push(&mut self, val: u16)
        requires
            old(self).wf(),
        ensures
            final(self).wf(),
            final(self)@ == spush(old(self)@, val),
    {
        self.reg.sp = self.reg.sp.wrapping_sub(2);
        self.mem.set_hw(self.reg.sp, val);
    }

    /// Pops a half-word: reads the value at the stack pointer, then moves
    /// the stack pointer up by two (wrapping).
    pub fn stack_pop(&mut self) -> (r: u16)
        requires
            old(self).wf(),
        ensures
            final(self).wf(),
            r == spop_val(old(self)@),
            final(self)@ == spop_next(old(self)@),
    {
        let val = self.mem.get_hw(self.reg.sp);
        self.reg.sp = self.reg.sp.wrapping_add(2);
        val
    }

    /// Sets or clears one condition flag, leaving the other three and all
    /// other state untouched.
    pub fn set_flag(&mut self, flag: Flag, val: bool)
        requires
            old(self).wf(),
        ensures
            final(self).wf(),
            final(self)@ == (match flag {
                Flag::Z => (CpuView { zf: val, ..old(self)@ }),
                Flag::N => (CpuView { nf: val, ..old(self)@ }),
                Flag::H => (CpuView { hf: val, ..old(self)@ }),
                Flag::C => (CpuView { cf: val, ..old(self)@ }),
            }),
    {
        let f = self.reg.f;
        match flag {
            Flag::Z => {
                proof {
                    lemma_set_mask(f, 0x80, val);
                }
                self.reg.f = if val {
                    f | 0x80
                } else {
                    f & !0x80
                };
            },
            Flag::N => {
                proof {
                    lemma_set_mask(f, 0x40, val);
                }
                self.reg.f = if val {
                    f | 0x40
                } else {
                    f & !0x40
                };
            },
            Flag::H => {
                proof {
                    lemma_set_mask(f, 0x20, val);
                }
                self.reg.f = if val {
                    f | 0x20
                } else {
                    f & !0x20
                };
            },
            Flag::C => {
                proof {
                    lemma_set_mask(f, 0x10, val);
                }
                self.reg.f = if val {
                    f | 0x10
                } else {
                    f & !0x10
                };
            },
        }
    }

    /// Is the Zero flag set?
    pub fn flag_z(&self) -> (r: bool)
        ensures
            r == self@.zf,
    {
        (self.reg.f & 0x80) != 0
    }

    /// Is the Subtract flag set?
    pub fn flag_n(&self) -> (r: bool)
        ensures
            r == self@.nf,
    {
        (self.reg.f & 0x40) != 0
    }

    /// Is the Half-carry flag set?
    pub fn flag_h(&self) -> (r: bool)
        ensures
            r == self@.hf,
    {
        (self.reg.f & 0x20) != 0
    }

    /// Is the Carry flag set?
    pub fn flag_c(&self) -> (r: bool)
        ensures
            r == self@.cf,
    {
        (self.reg.f & 0x10) != 0
    }

    /// The program counter.
    pub fn pc(&self) -> (r: u16)
        ensures
            r == self@.pc,
    {
        self.reg.pc
    }

    /// The stack pointer.
    pub fn sp(&self) -> (r: u16)
        ensures
            r == self@.sp,
    {
        self.reg.sp
    }

    /// The accumulator.
    pub fn a(&self) -> (r: u8)
        ensures
            r == self@.a,
    {
        self.reg.a
    }

    pub fn b(&self) -> (r: u8)
        ensures
            r == self@.b,
    {
        self.reg.b
    }

    pub fn c(&self) -> (r: u8)
        ensures
            r == self@.c,
    {
        self.reg.c
    }

    pub fn d(&self) -> (r: u8)
        ensures
            r == self@.d,
    {
        self.reg.d
    }

    pub fn e(&self) -> (r: u8)
        ensures
            r == self@.e,
    {
        self.reg.e
    }

    pub fn h(&self) -> (r: u8)
        ensures
            r == self@.h,
    {
        self.reg.h
    }

    pub fn l(&self) -> (r: u8)
        ensures
            r == self@.l,
    {
        self.reg.l
    }

    /// The AF pair.
    pub fn af(&self) -> (r: u16)
        requires
            self.wf(),
        ensures
            r == af_of(self@),
    {
        proof {
            crate::register::lemma_flags_byte_ext(self.reg.f);
        }
        self.reg.get_af()
    }

    /// The BC pair.
    pub fn bc(&self) -> (r: u16)
        ensures
            r == bc_of(self@),
    {
        self.reg.get_bc()
    }

    /// The DE pair.
    pub fn de(&self) -> (r: u16)
        ensures
            r == de_of(self@),
    {
        self.reg.get_de()
    }

    /// The HL pair.
    pub fn hl(&self) -> (r: u16)
        ensures
            r == hl_of(self@),
    {
        self.reg.get_hl()
    }
}

/// Setting or clearing one of the four flag-mask bits changes exactly that
/// bit of the flag byte and no other.
proof fn lemma_set_mask(f: u8, m: u8, val: bool)
    requires
        m == 0x80 || m == 0x40 || m == 0x20 || m == 0x10,
    ensures
        ((if val {
            f | m
        } else {
            f & !m
        }) & 0x80 != 0) == (if m == 0x80 {
            val
        } else {
            f & 0x80 != 0
        }),
        ((if val {
            f | m
        } else {
            f & !m
        }) & 0x40 != 0) == (if m == 0x40 {
            val
        } else {
            f & 0x40 != 0
        }),
        ((if val {
            f | m
        } else {
            f & !m
        }) & 0x20 != 0) == (if m == 0x20 {
            val
        } else {
            f & 0x20 != 0
        }),
        ((if val {
            f | m
        } else {
            f & !m
        }) & 0x10 != 0) == (if m == 0x10 {
            val
        } else {
            f & 0x10 != 0
        }),
        (if val {
            f | m
        } else {
            f & !m
        }) & 0x0F == f & 0x0F,
{
    let g = if val {
        f | m
    } else {
        f & !m
    };
    assert((g & 0x80 != 0) == (if m == 0x80 {
        val
    } else {
        f & 0x80 != 0
    }) && (g & 0x40 != 0) == (if m == 0x40 {
        val
    } else {
        f & 0x40 != 0
    }) && (g & 0x20 != 0) == (if m == 0x20 {
        val
    } else {
        f & 0x20 != 0
    }) && (g & 0x10 != 0) == (if m == 0x10 {
        val
    } else {
        f & 0x10 != 0
    }) && g & 0x0F == f & 0x0F) by (bit_vector)
        requires
            m == 0x80 || m == 0x40 || m == 0x20 || m == 0x10,
            g == (if val {
                f | m
            } else {
                f & !m
            }),
    ;
}

/// Pushing a half-word and then popping returns exactly the pushed value,
/// and the pop restores the stack pointer to its value before the push.
/// The program counter and registers are untouched by either operation.
pub proof fn lemma_push_pop(s: CpuView, x: u16)
    requires
        s.mem.len() == MEM_SIZE,
    ensures
        spop_val(spush(s, x)) == x,
        spop_next(spush(s, x)).sp == s.sp,
        spop_next(spush(s, x)).pc == s.pc,
        spop_next(spush(s, x)).a == s.a,
{
    let nsp = wsub16(s.sp, 2);
    let m1 = word_write(s.mem, nsp, x);
    assert(wadd16(nsp, 1) != nsp);
    assert(byte_at(m1, nsp) == lo8(x));
    assert(byte_at(m1, wadd16(nsp, 1)) == hi8(x));
    crate::arith::lemma_pair_split(x);
    assert(wadd16(wsub16(s.sp, 2), 2) == s.sp);
}

impl Default for CPU {
    /// The architectural power-on state: reset registers and a zero-filled
    /// bus.
    fn default() -> (r: CPU)
        ensures
            r.wf(),
            r@.pc == 0x100,
            r@.sp == 0xFFFE,
            r@.a == 0 && r@.b == 0 && r@.c == 0 && r@.d == 0 && r@.e == 0 && r@.h == 0 && r@.l
                == 0,
            !r@.zf && !r@.nf && !r@.hf && !r@.cf,
            r@.mem.len() == MEM_SIZE,
            forall|i: int| 0 <= i < MEM_SIZE ==> r@.mem[i] == 0u8,
    {
        let reg = Register::default();
        let mem = MMUnit::default();
        proof {
            crate::register::lemma_flags_byte(false, false, false, false);
            mem.lemma_wf_len();
        }
        CPU { reg, mem }
    }
}

} // verus!
