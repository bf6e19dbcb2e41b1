//! The arithmetic/logic unit: 8-bit and 16-bit arithmetic, logic, shift,
//! rotate and bit operations, each with its exact flag-update contract.
//!
//! Every operation has a specification function over `CpuView` that gives
//! the full next state; the executable method is proved to produce exactly
//! that state.

use vstd::prelude::*;
use crate::arith::{wadd8, wsub8, wadd16, hi8, lo8, sign_ext, sign_extend};
use crate::register::Flag;
use crate::cpu::{CPU, CpuView, hl_of, imv, imn};

verus! {

/// A carry flag as a 0/1 operand.
pub open spec fn bit1(c: bool) -> u8 {
    if c {
        1
    } else {
        0
    }
}

/// ADD: accumulator plus operand, modulo 256.
/// Z: result is zero. N: cleared. H: carry out of bit 3. C: carry out of bit 7.
pub open spec fn sadd(s: CpuView, v: u8) -> CpuView {
    CpuView {
        a: wadd8(s.a, v),
        zf: wadd8(s.a, v) == 0,
        nf: false,
        hf: s.a % 16 + v % 16 > 15,
        cf: s.a + v > 255,
        ..s
    }
}

/// ADC: accumulator plus operand plus carry-in, modulo 256.
/// Z: result is zero. N: cleared. H/C: carries including the carry-in.
pub open spec fn sadc(s: CpuView, v: u8) -> CpuView {
    CpuView {
        a: wadd8(wadd8(s.a, v), bit1(s.cf)),
        zf: wadd8(wadd8(s.a, v), bit1(s.cf)) == 0,
        nf: false,
        hf: s.a % 16 + v % 16 + bit1(s.cf) > 15,
        cf: s.a + v + bit1(s.cf) > 255,
        ..s
    }
}

/// SUB: accumulator minus operand, modulo 256.
/// Z: result is zero. N: set. H: borrow into bit 4. C: borrow out of bit 8.
pub open spec fn ssub(s: CpuView, v: u8) -> CpuView {
    CpuView {
        a: wsub8(s.a, v),
        zf: wsub8(s.a, v) == 0,
        nf: true,
        hf: s.a % 16 < v % 16,
        cf: s.a < v,
        ..s
    }
}

/// SBC: accumulator minus operand minus carry-in, modulo 256.
/// Z: result is zero. N: set. H/C: borrows including the carry-in.
pub open spec fn ssbc(s: CpuView, v: u8) -> CpuView {
    CpuView {
        a: wsub8(wsub8(s.a, v), bit1(s.cf)),
        zf: wsub8(wsub8(s.a, v), bit1(s.cf)) == 0,
        nf: true,
        hf: s.a % 16 < v % 16 + bit1(s.cf),
        cf: s.a < v + bit1(s.cf),
        ..s
    }
}

/// AND: Z from the result, N cleared, H set, C cleared.
pub open spec fn sand(s: CpuView, v: u8) -> CpuView {
    CpuView { a: s.a & v, zf: s.a & v == 0, nf: false, hf: true, cf: false, ..s }
}

/// OR: Z from the result, N, H and C cleared.
pub open spec fn sor(s: CpuView, v: u8) -> CpuView {
    CpuView { a: s.a | v, zf: s.a | v == 0, nf: false, hf: false, cf: false, ..s }
}

/// XOR: Z from the result, N, H and C cleared.
pub open spec fn sxor(s: CpuView, v: u8) -> CpuView {
    CpuView { a: s.a ^ v, zf: s.a ^ v == 0, nf: false, hf: false, cf: false, ..s }
}

/// CP: the flags of SUB with the accumulator left unchanged.
pub open spec fn scp(s: CpuView, v: u8) -> CpuView {
    CpuView { a: s.a, ..ssub(s, v) }
}

/// INC result: the operand plus one, modulo 256.
pub open spec fn inc_r(v: u8) -> u8 {
    wadd8(v, 1)
}

/// INC flags: Z from the result, N cleared, H on carry out of bit 3,
/// C untouched.
pub open spec fn sinc_f(s: CpuView, v: u8) -> CpuView {
    CpuView { zf: inc_r(v) == 0, nf: false, hf: v % 16 == 15, ..s }
}

/// DEC result: the operand minus one, modulo 256.
pub open spec fn dec_r(v: u8) -> u8 {
    wsub8(v, 1)
}

/// DEC flags: Z from the result, N set, H on borrow from bit 4, C untouched.
pub open spec fn sdec_f(s: CpuView, v: u8) -> CpuView {
    CpuView { zf: dec_r(v) == 0, nf: true, hf: v % 16 == 0, ..s }
}

/// ADD HL,v: HL plus operand modulo 65536. Z untouched, N cleared,
/// H on carry out of bit 11, C on carry out of bit 15.
pub open spec fn sadd16(s: CpuView, v: u16) -> CpuView {
    CpuView {
        h: hi8(wadd16(hl_of(s), v)),
        l: lo8(wadd16(hl_of(s), v)),
        nf: false,
        hf: hl_of(s) % 0x800 + v % 0x800 > 0x7FF,
        cf: hl_of(s) + v > 0xFFFF,
        ..s
    }
}

/// The result of adding a signed immediate displacement to a 16-bit value:
/// the displacement is fetched at the program counter and sign-extended.
pub open spec fn simm_r(s: CpuView, v: u16) -> u16 {
    wadd16(sign_ext(imv(s)), v)
}

/// The state after fetching the displacement for a signed 16-bit add:
/// the program counter has moved past it; Z and N are cleared, H and C come
/// from the low nibble and low byte of the unsigned addition.
pub open spec fn simm_f(s: CpuView, v: u16) -> CpuView {
    CpuView {
        zf: false,
        nf: false,
        hf: sign_ext(imv(s)) % 16 + v % 16 > 15,
        cf: sign_ext(imv(s)) % 256 + v % 256 > 255,
        ..imn(s)
    }
}

/// SWAP result: the two nibbles exchanged.
pub open spec fn swap_r(v: u8) -> u8 {
    (v >> 4) | (v << 4)
}

/// RLC result: rotate left, bit 7 into bit 0.
pub open spec fn rlc_r(v: u8) -> u8 {
    (v << 1) | (v >> 7)
}

/// RL result: shift left, the old carry into bit 0.
pub open spec fn rl_r(v: u8, c: bool) -> u8 {
    if c {
        (v << 1) | 1
    } else {
        v << 1
    }
}

/// RRC result: rotate right, bit 0 into bit 7.
pub open spec fn rrc_r(v: u8) -> u8 {
    if v & 0x01 != 0 {
        0x80 | (v >> 1)
    } else {
        v >> 1
    }
}

/// RR result: shift right, the old carry into bit 7.
pub open spec fn rr_r(v: u8, c: bool) -> u8 {
    if c {
        0x80 | (v >> 1)
    } else {
        v >> 1
    }
}

/// SLA result: shift left, zero into bit 0.
pub open spec fn sla_r(v: u8) -> u8 {
    v << 1
}

/// SRA result: shift right, bit 7 preserved.
pub open spec fn sra_r(v: u8) -> u8 {
    (v >> 1) | (v & 0x80)
}

/// SRL result: shift right, zero into bit 7.
pub open spec fn srl_r(v: u8) -> u8 {
    v >> 1
}

/// The flag state all rotates and shifts leave behind: Z from the result,
/// N and H cleared, C from the bit rotated or shifted out.
pub open spec fn srot_f(s: CpuView, r: u8, c: bool) -> CpuView {
    CpuView { zf: r == 0, nf: false, hf: false, cf: c, ..s }
}

/// BIT b: Z set when bit b of the operand is clear; N cleared, H set,
/// C untouched.
pub open spec fn sbit_f(s: CpuView, b: u8, v: u8) -> CpuView {
    CpuView { zf: v & (1u8 << b) == 0, nf: false, hf: true, ..s }
}

/// SET b: the operand with bit b set; no flag effect.
pub open spec fn set_r(b: u8, v: u8) -> u8 {
    (1u8 << b) | v
}

/// RES b: the operand with bit b cleared; no flag effect.
pub open spec fn res_r(b: u8, v: u8) -> u8 {
    !(1u8 << b) & v
}

/// DAA: the decimal adjustment of the accumulator driven by the current
/// N, H and C flags. When the last operation was an addition, 0x06 / 0x60
/// are added where a nibble overflowed decimal range or a carry occurred;
/// after a subtraction the recorded borrow adjustments are subtracted.
/// Z: result is zero. N: untouched. H: cleared. C: set when the 0x60
/// adjustment applied.
pub open spec fn sdaa(s: CpuView) -> CpuView {
    let adj6 = s.hf || (!s.nf && s.a % 16 > 9);
    let adj60 = s.cf || (!s.nf && s.a > 0x99);
    let adjust = ((if adj60 {
        0x60int
    } else {
        0
    }) + (if adj6 {
        0x06int
    } else {
        0
    })) as u8;
    let r = if s.nf {
        wsub8(s.a, adjust)
    } else {
        wadd8(s.a, adjust)
    };
    CpuView { a: r, zf: r == 0, hf: false, cf: adj60, ..s }
}

/// CPL: the accumulator complemented; N and H set, Z and C untouched.
pub open spec fn scpl(s: CpuView) -> CpuView {
    CpuView { a: !s.a, nf: true, hf: true, ..s }
}

/// CCF: the carry inverted; N and H cleared, Z untouched.
pub open spec fn sccf(s: CpuView) -> CpuView {
    CpuView { nf: false, hf: false, cf: !s.cf, ..s }
}

/// SCF: the carry set; N and H cleared, Z untouched.
pub open spec fn sscf(s: CpuView) -> CpuView {
    CpuView { nf: false, hf: false, cf: true, ..s }
}

/// JR: fetch the signed displacement and add it to the program counter
/// (which has already moved past the displacement byte).
pub open spec fn sjr(s: CpuView) -> CpuView {
    CpuView { pc: wadd16(wadd16(s.pc, 1), sign_ext(imv(s))), ..s }
}

impl CPU {
    /// Adds the operand to the accumulator.
    pub(crate) fn alu_add(&mut self, v: u8)
        requires
            old(self).wf(),
        ensures
            final(self).wf(),
            final(self)@ == sadd(old(self)@, v),
    {
        let a = self.reg.a;
        let res = a.wrapping_add(v);
        self.set_flag(Flag::Z, res == 0);
        self.set_flag(Flag::N, false);
        self.set_flag(Flag::H, a % 16 + v % 16 > 15);
        self.set_flag(Flag::C, a as u16 + v as u16 > 255);
        self.reg.a = res;
    }

    /// Adds the operand and the carry flag to the accumulator.
    pub(crate) fn alu_adc(&mut self, v: u8)
        requires
            old(self).wf(),
        ensures
            final(self).wf(),
            final(self)@ == sadc(old(self)@, v),
    {
        let a = self.reg.a;
        let c: u8 = if self.flag_c() {
            1
        } else {
            0
        };
        let res = a.wrapping_add(v).wrapping_add(c);
        self.set_flag(Flag::Z, res == 0);
        self.set_flag(Flag::N, false);
        self.set_flag(Flag::H, a % 16 + v % 16 + c > 15);
        self.set_flag(Flag::C, a as u16 + v as u16 + c as u16 > 255);
        self.reg.a = res;
    }

    /// Subtracts the operand from the accumulator.
    pub(crate) fn alu_sub(&mut self, v: u8)
        requires
            old(self).wf(),
        ensures
            final(self).wf(),
            final(self)@ == ssub(old(self)@, v),
    {
        let a = self.reg.a;
        let res = a.wrapping_sub(v);
        self.set_flag(Flag::Z, res == 0);
        self.set_flag(Flag::N, true);
        self.set_flag(Flag::H, a % 16 < v % 16);
        self.set_flag(Flag::C, a < v);
        self.reg.a = res;
    }

    /// Subtracts the operand and the carry flag from the accumulator.
    pub(crate) fn alu_sbc(&mut self, v: u8)
        requires
            old(self).wf(),
        ensures
            final(self).wf(),
            final(self)@ == ssbc(old(self)@, v),
    {
        let a = self.reg.a;
        let c: u8 = if self.flag_c() {
            1
        } else {
            0
        };
        let res = a.wrapping_sub(v).wrapping_sub(c);
        self.set_flag(Flag::Z, res == 0);
        self.set_flag(Flag::N, true);
        self.set_flag(Flag::H, a % 16 < v % 16 + c);
        self.set_flag(Flag::C, (a as u16) < v as u16 + c as u16);
        self.reg.a = res;
    }

    /// Bitwise AND of the accumulator with the operand.
    pub(crate) fn alu_and(&mut self, v: u8)
        requires
            old(self).wf(),
        ensures
            final(self).wf(),
            final(self)@ == sand(old(self)@, v),
    {
        let res = self.reg.a & v;
        self.set_flag(Flag::Z, res == 0);
        self.set_flag(Flag::N, false);
        self.set_flag(Flag::H, true);
        self.set_flag(Flag::C, false);
        self.reg.a = res;
    }

    /// Bitwise OR of the accumulator with the operand.
    pub(crate) fn alu_or(&mut self, v: u8)
        requires
            old(self).wf(),
        ensures
            final(self).wf(),
            final(self)@ == sor(old(self)@, v),
    {
        let res = self.reg.a | v;
        self.set_flag(Flag::Z, res == 0);
        self.set_flag(Flag::N, false);
        self.set_flag(Flag::H, false);
        self.set_flag(Flag::C, false);
        self.reg.a = res;
    }

    /// Bitwise XOR of the accumulator with the operand.
    pub(crate) fn alu_xor(&mut self, v: u8)
        requires
            old(self).wf(),
        ensures
            final(self).wf(),
            final(self)@ == sxor(old(self)@, v),
    {
        let res = self.reg.a ^ v;
        self.set_flag(Flag::Z, res == 0);
        self.set_flag(Flag::N, false);
        self.set_flag(Flag::H, false);
        self.set_flag(Flag::C, false);
        self.reg.a = res;
    }

    /// Compares the operand against the accumulator: the flags of a
    /// subtraction, with the accumulator kept.
    pub(crate) fn alu_cp(&mut self, v: u8)
        requires
            old(self).wf(),
        ensures
            final(self).wf(),
            final(self)@ == scp(old(self)@, v),
    {
        let res = self.reg.a;
        self.alu_sub(v);
        self.reg.a = res;
    }

    /// Increments a value, updating Z, N and H; C is untouched.
    pub(crate) fn alu_inc(&mut self, v: u8) -> (r: u8)
        requires
            old(self).wf(),
        ensures
            final(self).wf(),
            r == inc_r(v),
            final(self)@ == sinc_f(old(self)@, v),
    {
        let res = v.wrapping_add(1);
        self.set_flag(Flag::Z, res == 0);
        self.set_flag(Flag::H, v % 16 == 15);
        self.set_flag(Flag::N, false);
        res
    }

    /// Decrements a value, updating Z, N and H; C is untouched.
    pub(crate) fn alu_dec(&mut self, v: u8) -> (r: u8)
        requires
            old(self).wf(),
        ensures
            final(self).wf(),
            r == dec_r(v),
            final(self)@ == sdec_f(old(self)@, v),
    {
        let res = v.wrapping_sub(1);
        self.set_flag(Flag::Z, res == 0);
        self.set_flag(Flag::H, v % 16 == 0);
        self.set_flag(Flag::N, true);
        res
    }

    /// Adds a 16-bit operand to HL. Z is untouched.
    pub(crate) fn alu_add_hw_hl(&mut self, v: u16)
        requires
            old(self).wf(),
        ensures
            final(self).wf(),
            final(self)@ == sadd16(old(self)@, v),
    {
        let a = self.reg.get_hl();
        let res = a.wrapping_add(v);
        self.set_flag(Flag::N, false);
        self.set_flag(Flag::H, a % 0x800 + v % 0x800 > 0x7FF);
        self.set_flag(Flag::C, a > 0xFFFF - v);
        self.reg.set_hl(res);
    }

    /// Fetches a signed 8-bit displacement and adds it (sign-extended) to
    /// the 16-bit operand, returning the sum; H and C reflect the unsigned
    /// low-nibble and low-byte additions, Z and N are cleared.
    pub(crate) fn alu_add_hw_imm(&mut self, v: u16) -> (r: u16)
        requires
            old(self).wf(),
        ensures
            final(self).wf(),
            r == simm_r(old(self)@, v),
            final(self)@ == simm_f(old(self)@, v),
    {
        let d = self.imm();
        let x = sign_extend(d);
        self.set_flag(Flag::Z, false);
        self.set_flag(Flag::N, false);
        self.set_flag(Flag::H, x % 16 + v % 16 > 15);
        self.set_flag(Flag::C, x % 256 + v % 256 > 255);
        x.wrapping_add(v)
    }

    /// Exchanges the two nibbles of the operand; Z from the result, N, H
    /// and C cleared.
    pub(crate) fn alu_swap(&mut self, v: u8) -> (r: u8)
        requires
            old(self).wf(),
        ensures
            final(self).wf(),
            r == swap_r(v),
            final(self)@ == srot_f(old(self)@, swap_r(v), false),
    {
        proof {
            assert((((v >> 4) | (v << 4)) == 0) == (v == 0)) by (bit_vector);
        }
        self.set_flag(Flag::Z, v == 0);
        self.set_flag(Flag::N, false);
        self.set_flag(Flag::H, false);
        self.set_flag(Flag::C, false);
        (v >> 4) | (v << 4)
    }

    /// Decimal-adjusts the accumulator after a BCD addition or subtraction.
    pub(crate) fn alu_daa(&mut self)
        requires
            old(self).wf(),
        ensures
            final(self).wf(),
            final(self)@ == sdaa(old(self)@),
    {
        let a = self.reg.a;
        let adj6: bool = self.flag_h() || (!self.flag_n() && a % 16 > 9);
        let adj60: bool = self.flag_c() || (!self.flag_n() && a > 0x99);
        let adjust: u8 = (if adj60 {
            0x60
        } else {
            0
        }) + (if adj6 {
            0x06
        } else {
            0
        });
        let res = if self.flag_n() {
            a.wrapping_sub(adjust)
        } else {
            a.wrapping_add(adjust)
        };
        self.reg.a = res;
        self.set_flag(Flag::Z, res == 0);
        self.set_flag(Flag::H, false);
        self.set_flag(Flag::C, adj60);
    }

    /// Complements the accumulator; N and H are set.
    pub(crate) fn alu_cpl(&mut self)
        requires
            old(self).wf(),
        ensures
            final(self).wf(),
            final(self)@ == scpl(old(self)@),
    {
        self.reg.a = !self.reg.a;
        self.set_flag(Flag::N, true);
        self.set_flag(Flag::H, true);
    }

    /// Inverts the carry flag; N and H are cleared.
    pub(crate) fn alu_ccf(&mut self)
        requires
            old(self).wf(),
        ensures
            final(self).wf(),
            final(self)@ == sccf(old(self)@),
    {
        let c = self.flag_c();
        self.set_flag(Flag::N, false);
        self.set_flag(Flag::H, false);
        self.set_flag(Flag::C, !c);
    }

    /// Sets the carry flag; N and H are cleared.
    pub(crate) fn alu_scf(&mut self)
        requires
            old(self).wf(),
        ensures
            final(self).wf(),
            final(self)@ == sscf(old(self)@),
    {
        self.set_flag(Flag::N, false);
        self.set_flag(Flag::H, false);
        self.set_flag(Flag::C, true);
    }

    /// Rotates left; the old bit 7 goes to both the carry and bit 0.
    pub(crate) fn alu_rlc(&mut self, v: u8) -> (r: u8)
        requires
            old(self).wf(),
        ensures
            final(self).wf(),
            r == rlc_r(v),
            final(self)@ == srot_f(old(self)@, rlc_r(v), v & 0x80 != 0),
    {
        let c_res = (v & 0x80) != 0;
        let res = (v << 1) | (v >> 7);
        self.set_flag(Flag::Z, res == 0);
        self.set_flag(Flag::N, false);
        self.set_flag(Flag::H, false);
        self.set_flag(Flag::C, c_res);
        res
    }

    /// Rotates left through the carry: the old carry enters bit 0 and the
    /// old bit 7 becomes the carry.
    pub(crate) fn alu_rl(&mut self, v: u8) -> (r: u8)
        requires
            old(self).wf(),
        ensures
            final(self).wf(),
            r == rl_r(v, old(self)@.cf),
            final(self)@ == srot_f(old(self)@, rl_r(v, old(self)@.cf), v & 0x80 != 0),
    {
        let c_res = (v & 0x80) != 0;
        let res = if self.flag_c() {
            (v << 1) | 1
        } else {
            v << 1
        };
        self.set_flag(Flag::Z, res == 0);
        self.set_flag(Flag::N, false);
        self.set_flag(Flag::H, false);
        self.set_flag(Flag::C, c_res);
        res
    }

    /// Rotates right; the old bit 0 goes to both the carry and bit 7.
    pub(crate) fn alu_rrc(&mut self, v: u8) -> (r: u8)
        requires
            old(self).wf(),
        ensures
            final(self).wf(),
            r == rrc_r(v),
            final(self)@ == srot_f(old(self)@, rrc_r(v), v & 0x01 != 0),
    {
        let c_res = (v & 0x01) != 0;
        let res = if c_res {
            0x80 | (v >> 1)
        } else {
            v >> 1
        };
        self.set_flag(Flag::Z, res == 0);
        self.set_flag(Flag::N, false);
        self.set_flag(Flag::H, false);
        self.set_flag(Flag::C, c_res);
        res
    }

    /// Rotates right through the carry: the old carry enters bit 7 and the
    /// old bit 0 becomes the carry.
    pub(crate) fn alu_rr(&mut self, v: u8) -> (r: u8)
        requires
            old(self).wf(),
        ensures
            final(self).wf(),
            r == rr_r(v, old(self)@.cf),
            final(self)@ == srot_f(old(self)@, rr_r(v, old(self)@.cf), v & 0x01 != 0),
    {
        let res = if self.flag_c() {
            0x80 | (v >> 1)
        } else {
            v >> 1
        };
        self.set_flag(Flag::Z, res == 0);
        self.set_flag(Flag::N, false);
        self.set_flag(Flag::H, false);
        self.set_flag(Flag::C, (v & 0x01) != 0);
        res
    }

    /// Shifts left into the carry; bit 0 becomes zero.
    pub(crate) fn alu_sla(&mut self, v: u8) -> (r: u8)
        requires
            old(self).wf(),
        ensures
            final(self).wf(),
            r == sla_r(v),
            final(self)@ == srot_f(old(self)@, sla_r(v), v & 0x80 != 0),
    {
        let c_res = (v & 0x80) != 0;
        let res = v << 1;
        self.set_flag(Flag::Z, res == 0);
        self.set_flag(Flag::N, false);
        self.set_flag(Flag::H, false);
        self.set_flag(Flag::C, c_res);
        res
    }

    /// Shifts right into the carry; bit 7 is preserved (arithmetic shift).
    pub(crate) fn alu_sra(&mut self, v: u8) -> (r: u8)
        requires
            old(self).wf(),
        ensures
            final(self).wf(),
            r == sra_r(v),
            final(self)@ == srot_f(old(self)@, sra_r(v), v & 0x01 != 0),
    {
        let c_res = (v & 0x01) != 0;
        let res = (v >> 1) | (v & 0x80);
        self.set_flag(Flag::Z, res == 0);
        self.set_flag(Flag::N, false);
        self.set_flag(Flag::H, false);
        self.set_flag(Flag::C, c_res);
        res
    }

    /// Shifts right into the carry; bit 7 becomes zero (logical shift).
    pub(crate) fn alu_srl(&mut self, v: u8) -> (r: u8)
        requires
            old(self).wf(),
        ensures
            final(self).wf(),
            r == srl_r(v),
            final(self)@ == srot_f(old(self)@, srl_r(v), v & 0x01 != 0),
    {
        let c_res = (v & 0x01) != 0;
        let res = v >> 1;
        self.set_flag(Flag::Z, res == 0);
        self.set_flag(Flag::N, false);
        self.set_flag(Flag::H, false);
        self.set_flag(Flag::C, c_res);
        res
    }

    /// Tests bit `b` of the operand: Z is set when the bit is clear.
    pub(crate) fn alu_bit(&mut self, b: u8, v: u8)
        requires
            old(self).wf(),
            b < 8,
        ensures
            final(self).wf(),
            final(self)@ == sbit_f(old(self)@, b, v),
    {
        self.set_flag(Flag::Z, (v & (1u8 << b)) == 0);
        self.set_flag(Flag::N, false);
        self.set_flag(Flag::H, true);
    }

    /// Sets bit `b` of the operand; no flag effect.
    pub(crate) fn alu_set(&self, b: u8, v: u8) -> (r: u8)
        requires
            b < 8,
        ensures
            r == set_r(b, v),
    {
        (1u8 << b) | v
    }

    /// Clears bit `b` of the operand; no flag effect.
    pub(crate) fn alu_reset(&self, b: u8, v: u8) -> (r: u8)
        requires
            b < 8,
        ensures
            r == res_r(b, v),
    {
        !(1u8 << b) & v
    }

    /// Relative jump: fetches the signed displacement and adds it to the
    /// program counter.
    pub(crate) fn alu_jr(&mut self)
        requires
            old(self).wf(),
        ensures
            final(self).wf(),
            final(self)@ == sjr(old(self)@),
    {
        let d = self.imm();
        let disp = sign_extend(d);
        self.reg.pc = self.reg.pc.wrapping_add(disp);
    }
}

/// Incrementing and then decrementing any 8-bit value returns it, and the
/// flags afterwards are those of the final decrement alone: Z is recomputed
/// from the restored value, N is set, H reflects the decrement's borrow and
/// C is whatever it was before the pair of operations.
pub proof fn lemma_inc_dec(s: CpuView, v: u8)
    ensures
        dec_r(inc_r(v)) == v,
        sdec_f(sinc_f(s, v), inc_r(v)).zf == (v == 0),
        sdec_f(sinc_f(s, v), inc_r(v)).nf == true,
        sdec_f(sinc_f(s, v), inc_r(v)).hf == (inc_r(v) % 16 == 0),
        sdec_f(sinc_f(s, v), inc_r(v)).cf == s.cf,
{
}

/// Adding an operand to the accumulator and then subtracting the same
/// operand restores the accumulator, sets N, and sets Z exactly when the
/// original accumulator was zero.
pub proof fn lemma_add_sub(s: CpuView, v: u8)
    ensures
        ssub(sadd(s, v), v).a == s.a,
        ssub(sadd(s, v), v).zf == (s.a == 0),
        ssub(sadd(s, v), v).nf == true,
{
}

/// Swapping the nibbles of a byte twice returns the original byte.
pub proof fn lemma_swap_swap(v: u8)
    ensures
        swap_r(swap_r(v)) == v,
{
    let w = swap_r(v);
    assert(((w >> 4) | (w << 4)) == v) by (bit_vector)
        requires
            w == (v >> 4) | (v << 4),
    ;
}

/// Decimal adjustment after adding two valid BCD operands: the result's
/// nibbles are both decimal digits, the carry flag says exactly whether the
/// true decimal sum exceeded 99, and the result encodes the decimal sum
/// modulo 100.
pub proof fn lemma_daa_bcd(s: CpuView, v: u8)
    requires
        s.a % 16 <= 9,
        s.a / 16 <= 9,
        v % 16 <= 9,
        v / 16 <= 9,
    ensures
        sdaa(sadd(s, v)).a % 16 <= 9,
        sdaa(sadd(s, v)).a / 16 <= 9,
        sdaa(sadd(s, v)).cf == (10 * (s.a / 16) + s.a % 16 + 10 * (v / 16) + v % 16 > 99),
        10 * (sdaa(sadd(s, v)).a / 16) + sdaa(sadd(s, v)).a % 16 == (10 * (s.a / 16) + s.a % 16 + 10
            * (v / 16) + v % 16) % 100,
{
    let x = s.a;
    let r0 = wadd8(x, v);
    let t = sadd(s, v);
    let hf0 = t.hf;
    let cf0 = t.cf;
    let adj6 = hf0 || r0 % 16 > 9;
    let adj60 = cf0 || r0 > 0x99;
    let adjust = ((if adj60 {
        0x60int
    } else {
        0
    }) + (if adj6 {
        0x06int
    } else {
        0
    })) as u8;
    let r1 = wadd8(r0, adjust);
    assert(r1 % 16 <= 9 && r1 / 16 <= 9 && adj60 == (10 * (x / 16) + x % 16 + 10 * (v / 16) + v % 16
        > 99) && 10 * (r1 / 16) + r1 % 16 == (10 * (x / 16) + x % 16 + 10 * (v / 16) + v % 16)
        % 100) by (bit_vector)
        requires
            x % 16 <= 9,
            x / 16 <= 9,
            v % 16 <= 9,
            v / 16 <= 9,
            cf0 == (x + v > 255),
            hf0 == (x % 16 + v % 16 > 15),
            r0 == (if x + v > 255 {
                x + v - 256
            } else {
                x + v
            }),
            adj6 == (hf0 || r0 % 16 > 9),
            adj60 == (cf0 || r0 > 0x99),
            adjust == (if adj60 {
                0x60u8
            } else {
                0u8
            }) + (if adj6 {
                0x06u8
            } else {
                0u8
            }),
            r1 == (if r0 + adjust > 255 {
                r0 + adjust - 256
            } else {
                r0 + adjust
            }),
    ;
    assert(sdaa(sadd(s, v)).a == r1);
    assert(sdaa(sadd(s, v)).cf == adj60);
}

} // verus!
