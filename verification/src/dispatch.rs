//! The instruction dispatcher: decodes one opcode byte (with the 0xCB
//! prefix reaching a second, extended table) and performs the corresponding
//! register, ALU and bus operations.
//!
//! The whole table — 256 primary entries and 256 extended entries — is
//! defined by the specification interpreter `spec_ex`, and the executable
//! dispatcher `CPU::ex` is proved to perform exactly that transition.

use vstd::prelude::*;
use crate::arith::{hi8, lo8, wadd16, wsub16};
use crate::register::Flag;
use crate::mmu::{byte_at, byte_write, word_write};
use crate::cpu::{
    CPU, CpuView, af_of, bc_of, de_of, hl_of, imv, imn, imv16, imn16, spush, spop_val, spop_next,
    with_af,
};
use crate::alu::{
    sadd, sadc, ssub, ssbc, sand, sor, sxor, scp, inc_r, sinc_f, dec_r, sdec_f, sadd16, simm_r,
    simm_f, swap_r, rlc_r, rl_r, rrc_r, rr_r, sla_r, sra_r, srl_r, srot_f, sbit_f, set_r, res_r,
    sdaa, scpl, sccf, sscf, sjr,
};

verus! {

/// The 8-bit operand with index `idx` in the uniform operand order of the
/// LD, arithmetic and extended tables: B, C, D, E, H, L, the byte at (HL),
/// and A.
pub open spec fn rd_op(s: CpuView, idx: u8) -> u8 {
    if idx == 0 {
        s.b
    } else if idx == 1 {
        s.c
    } else if idx == 2 {
        s.d
    } else if idx == 3 {
        s.e
    } else if idx == 4 {
        s.h
    } else if idx == 5 {
        s.l
    } else if idx == 6 {
        byte_at(s.mem, hl_of(s))
    } else {
        s.a
    }
}

/// The state after storing `v` into the operand with index `idx` (a
/// register, or the byte at (HL) for index 6).
pub open spec fn wr_op(s: CpuView, idx: u8, v: u8) -> CpuView {
    if idx == 0 {
        CpuView { b: v, ..s }
    } else if idx == 1 {
        CpuView { c: v, ..s }
    } else if idx == 2 {
        CpuView { d: v, ..s }
    } else if idx == 3 {
        CpuView { e: v, ..s }
    } else if idx == 4 {
        CpuView { h: v, ..s }
    } else if idx == 5 {
        CpuView { l: v, ..s }
    } else if idx == 6 {
        CpuView { mem: byte_write(s.mem, hl_of(s), v), ..s }
    } else {
        CpuView { a: v, ..s }
    }
}

/// One extended (0xCB-prefixed) instruction, applied after both opcode
/// bytes have been fetched: rotates, shifts, SWAP, BIT, RES and SET over
/// the eight operands.
pub open spec fn spec_cb(s: CpuView, op: u8) -> CpuView {
    let idx = op % 8;
    let v = rd_op(s, idx);
    let b = (op / 8) % 8;
    if op < 0x40 {
        let g = op / 8;
        let r = if g == 0 {
            rlc_r(v)
        } else if g == 1 {
            rrc_r(v)
        } else if g == 2 {
            rl_r(v, s.cf)
        } else if g == 3 {
            rr_r(v, s.cf)
        } else if g == 4 {
            sla_r(v)
        } else if g == 5 {
            sra_r(v)
        } else if g == 6 {
            swap_r(v)
        } else {
            srl_r(v)
        };
        let c = if g == 1 || g == 3 || g == 5 || g == 7 {
            v & 0x01 != 0
        } else if g == 6 {
            false
        } else {
            v & 0x80 != 0
        };
        wr_op(srot_f(s, r, c), idx, r)
    } else if op < 0x80 {
        sbit_f(s, b, v)
    } else if op < 0xC0 {
        wr_op(s, idx, res_r(b, v))
    } else {
        wr_op(s, idx, set_r(b, v))
    }
}

/// One register-to-register load (opcodes 0x40..0x7F), applied after the
/// opcode fetch. 0x76 is HALT, which this core treats as a plain advance.
pub open spec fn spec_ld(s: CpuView, op: u8) -> CpuView {
    if op == 0x76 {
        s
    } else {
        wr_op(s, (op / 8) % 8, rd_op(s, op % 8))
    }
}

/// One 8-bit accumulator operation (opcodes 0x80..0xBF), applied after the
/// opcode fetch: ADD, ADC, SUB, SBC, AND, XOR, OR and CP over the eight
/// operands.
pub open spec fn spec_arith(s: CpuView, op: u8) -> CpuView {
    let v = rd_op(s, op % 8);
    let g = (op / 8) % 8;
    if g == 0 {
        sadd(s, v)
    } else if g == 1 {
        sadc(s, v)
    } else if g == 2 {
        ssub(s, v)
    } else if g == 3 {
        ssbc(s, v)
    } else if g == 4 {
        sand(s, v)
    } else if g == 5 {
        sxor(s, v)
    } else if g == 6 {
        sor(s, v)
    } else {
        scp(s, v)
    }
}

/// One instruction from the low quadrant of the primary table (opcodes
/// 0x00..0x3F), applied after the opcode fetch: 16-bit loads and
/// increments, indirect loads and stores through BC, DE and HL, 8-bit
/// increments and decrements, immediate loads, accumulator rotates, DAA,
/// CPL, SCF, CCF, relative jumps and ADD HL. STOP (0x10) and HALT-like
/// entries are plain advances, interrupts being out of scope.
pub open spec fn spec_lo(s: CpuView, op: u8) -> CpuView {
    match op {
        0x00 => s,  // NOP
        0x01 => (CpuView { b: hi8(imv16(s)), c: lo8(imv16(s)), ..imn16(s) }),  // LD BC,d16
        0x02 => (CpuView { mem: byte_write(s.mem, bc_of(s), s.a), ..s }),  // LD (BC),A
        0x03 => (CpuView {
            b: hi8(wadd16(bc_of(s), 1)),
            c: lo8(wadd16(bc_of(s), 1)),
            ..s
        }),  // INC BC
        0x04 => (CpuView { b: inc_r(s.b), ..sinc_f(s, s.b) }),  // INC B
        0x05 => (CpuView { b: dec_r(s.b), ..sdec_f(s, s.b) }),  // DEC B
        0x06 => (CpuView { b: imv(s), ..imn(s) }),  // LD B,d8
        0x07 => (CpuView {
            a: rlc_r(s.a),
            zf: false,
            ..srot_f(s, rlc_r(s.a), s.a & 0x80 != 0)
        }),  // RLCA
        0x08 => (CpuView {
            mem: word_write(s.mem, imv16(s), s.sp),
            ..imn16(s)
        }),  // LD (a16),SP
        0x09 => sadd16(s, bc_of(s)),  // ADD HL,BC
        0x0A => (CpuView { a: byte_at(s.mem, bc_of(s)), ..s }),  // LD A,(BC)
        0x0B => (CpuView {
            b: hi8(wsub16(bc_of(s), 1)),
            c: lo8(wsub16(bc_of(s), 1)),
            ..s
        }),  // DEC BC
        0x0C => (CpuView { c: inc_r(s.c), ..sinc_f(s, s.c) }),  // INC C
        0x0D => (CpuView { c: dec_r(s.c), ..sdec_f(s, s.c) }),  // DEC C
        0x0E => (CpuView { c: imv(s), ..imn(s) }),  // LD C,d8
        0x0F => (CpuView {
            a: rrc_r(s.a),
            zf: false,
            ..srot_f(s, rrc_r(s.a), s.a & 0x01 != 0)
        }),  // RRCA
        0x10 => s,  // STOP
        0x11 => (CpuView { d: hi8(imv16(s)), e: lo8(imv16(s)), ..imn16(s) }),  // LD DE,d16
        0x12 => (CpuView { mem: byte_write(s.mem, de_of(s), s.a), ..s }),  // LD (DE),A
        0x13 => (CpuView {
            d: hi8(wadd16(de_of(s), 1)),
            e: lo8(wadd16(de_of(s), 1)),
            ..s
        }),  // INC DE
        0x14 => (CpuView { d: inc_r(s.d), ..sinc_f(s, s.d) }),  // INC D
        0x15 => (CpuView { d: dec_r(s.d), ..sdec_f(s, s.d) }),  // DEC D
        0x16 => (CpuView { d: imv(s), ..imn(s) }),  // LD D,d8
        0x17 => (CpuView {
            a: rl_r(s.a, s.cf),
            zf: false,
            ..srot_f(s, rl_r(s.a, s.cf), s.a & 0x80 != 0)
        }),  // RLA
        0x18 => sjr(s),  // JR r8
        0x19 => sadd16(s, de_of(s)),  // ADD HL,DE
        0x1A => (CpuView { a: byte_at(s.mem, de_of(s)), ..s }),  // LD A,(DE)
        0x1B => (CpuView {
            d: hi8(wsub16(de_of(s), 1)),
            e: lo8(wsub16(de_of(s), 1)),
            ..s
        }),  // DEC DE
        0x1C => (CpuView { e: inc_r(s.e), ..sinc_f(s, s.e) }),  // INC E
        0x1D => (CpuView { e: dec_r(s.e), ..sdec_f(s, s.e) }),  // DEC E
        0x1E => (CpuView { e: imv(s), ..imn(s) }),  // LD E,d8
        0x1F => (CpuView {
            a: rr_r(s.a, s.cf),
            zf: false,
            ..srot_f(s, rr_r(s.a, s.cf), s.a & 0x01 != 0)
        }),  // RRA
        0x20 => if !s.zf {
            sjr(s)
        } else {
            imn(s)
        },  // JR NZ,r8
        0x21 => (CpuView { h: hi8(imv16(s)), l: lo8(imv16(s)), ..imn16(s) }),  // LD HL,d16
        0x22 => (CpuView {
            mem: byte_write(s.mem, hl_of(s), s.a),
            h: hi8(wadd16(hl_of(s), 1)),
            l: lo8(wadd16(hl_of(s), 1)),
            ..s
        }),  // LD (HL+),A
        0x23 => (CpuView {
            h: hi8(wadd16(hl_of(s), 1)),
            l: lo8(wadd16(hl_of(s), 1)),
            ..s
        }),  // INC HL
        0x24 => (CpuView { h: inc_r(s.h), ..sinc_f(s, s.h) }),  // INC H
        0x25 => (CpuView { h: dec_r(s.h), ..sdec_f(s, s.h) }),  // DEC H
        0x26 => (CpuView { h: imv(s), ..imn(s) }),  // LD H,d8
        0x27 => sdaa(s),  // DAA
        0x28 => if s.zf {
            sjr(s)
        } else {
            imn(s)
        },  // JR Z,r8
        0x29 => sadd16(s, hl_of(s)),  // ADD HL,HL
        0x2A => (CpuView {
            a: byte_at(s.mem, hl_of(s)),
            h: hi8(wadd16(hl_of(s), 1)),
            l: lo8(wadd16(hl_of(s), 1)),
            ..s
        }),  // LD A,(HL+)
        0x2B => (CpuView {
            h: hi8(wsub16(hl_of(s), 1)),
            l: lo8(wsub16(hl_of(s), 1)),
            ..s
        }),  // DEC HL
        0x2C => (CpuView { l: inc_r(s.l), ..sinc_f(s, s.l) }),  // INC L
        0x2D => (CpuView { l: dec_r(s.l), ..sdec_f(s, s.l) }),  // DEC L
        0x2E => (CpuView { l: imv(s), ..imn(s) }),  // LD L,d8
        0x2F => scpl(s),  // CPL
        0x30 => if !s.cf {
            sjr(s)
        } else {
            imn(s)
        },  // JR NC,r8
        0x31 => (CpuView { sp: imv16(s), ..imn16(s) }),  // LD SP,d16
        0x32 => (CpuView {
            mem: byte_write(s.mem, hl_of(s), s.a),
            h: hi8(wsub16(hl_of(s), 1)),
            l: lo8(wsub16(hl_of(s), 1)),
            ..s
        }),  // LD (HL-),A
        0x33 => (CpuView { sp: wadd16(s.sp, 1), ..s }),  // INC SP
        0x34 => (CpuView {
            mem: byte_write(s.mem, hl_of(s), inc_r(byte_at(s.mem, hl_of(s)))),
            ..sinc_f(s, byte_at(s.mem, hl_of(s)))
        }),  // INC (HL)
        0x35 => (CpuView {
            mem: byte_write(s.mem, hl_of(s), dec_r(byte_at(s.mem, hl_of(s)))),
            ..sdec_f(s, byte_at(s.mem, hl_of(s)))
        }),  // DEC (HL)
        0x36 => (CpuView { mem: byte_write(s.mem, hl_of(s), imv(s)), ..imn(s) }),  // LD (HL),d8
        0x37 => sscf(s),  // SCF
        0x38 => if s.cf {
            sjr(s)
        } else {
            imn(s)
        },  // JR C,r8
        0x39 => sadd16(s, s.sp),  // ADD HL,SP
        0x3A => (CpuView {
            a: byte_at(s.mem, hl_of(s)),
            h: hi8(wsub16(hl_of(s), 1)),
            l: lo8(wsub16(hl_of(s), 1)),
            ..s
        }),  // LD A,(HL-)
        0x3B => (CpuView { sp: wsub16(s.sp, 1), ..s }),  // DEC SP
        0x3C => (CpuView { a: inc_r(s.a), ..sinc_f(s, s.a) }),  // INC A
        0x3D => (CpuView { a: dec_r(s.a), ..sdec_f(s, s.a) }),  // DEC A
        0x3E => (CpuView { a: imv(s), ..imn(s) }),  // LD A,d8
        0x3F => sccf(s),  // CCF
        _ => s,
    }
}

/// RET: the program counter is popped off the stack.
pub open spec fn sret(s: CpuView) -> CpuView {
    CpuView { pc: spop_val(s), ..spop_next(s) }
}

/// CALL: the 16-bit target is fetched, the address of the following
/// instruction is pushed, and the program counter is set to the target.
pub open spec fn scall(s: CpuView) -> CpuView {
    CpuView { pc: imv16(s), ..spush(imn16(s), wadd16(s.pc, 2)) }
}

/// RST: the current program counter is pushed and execution continues at
/// the fixed low-memory vector `v`.
pub open spec fn srst(s: CpuView, v: u16) -> CpuView {
    CpuView { pc: v, ..spush(s, s.pc) }
}

/// One instruction from the high quadrant of the primary table (opcodes
/// 0xC0..0xFF), applied after the opcode fetch: conditional and plain
/// returns, jumps and calls, stack pushes and pops, restarts, immediate
/// accumulator operations, the 0xFF00 page loads and stores, and the
/// signed stack-pointer additions. DI and EI only advance, interrupts
/// being out of scope, and the entries the instruction set leaves
/// unassigned (0xD3, 0xDB, 0xDD, 0xE3, 0xE4, 0xEB, 0xEC, 0xED, 0xF4,
/// 0xFC, 0xFD) advance as well.
pub open spec fn spec_hi(s: CpuView, op: u8) -> CpuView {
    match op {
        0xC0 => if !s.zf {
            sret(s)
        } else {
            s
        },  // RET NZ
        0xC1 => (CpuView { b: hi8(spop_val(s)), c: lo8(spop_val(s)), ..spop_next(s) }),  // POP BC
        0xC2 => if !s.zf {
            (CpuView { pc: imv16(s), ..s })
        } else {
            imn16(s)
        },  // JP NZ,a16
        0xC3 => (CpuView { pc: imv16(s), ..s }),  // JP a16
        0xC4 => if !s.zf {
            scall(s)
        } else {
            imn16(s)
        },  // CALL NZ,a16
        0xC5 => spush(s, bc_of(s)),  // PUSH BC
        0xC6 => sadd(imn(s), imv(s)),  // ADD d8
        0xC7 => srst(s, 0x00),  // RST 00H
        0xC8 => if s.zf {
            sret(s)
        } else {
            s
        },  // RET Z
        0xC9 => sret(s),  // RET
        0xCA => if s.zf {
            (CpuView { pc: imv16(s), ..s })
        } else {
            imn16(s)
        },  // JP Z,a16
        0xCB => s,  // the prefix itself is handled before this table
        0xCC => if s.zf {
            scall(s)
        } else {
            imn16(s)
        },  // CALL Z,a16
        0xCD => scall(s),  // CALL a16
        0xCE => sadc(imn(s), imv(s)),  // ADC d8
        0xCF => srst(s, 0x08),  // RST 08H
        0xD0 => if !s.cf {
            sret(s)
        } else {
            s
        },  // RET NC
        0xD1 => (CpuView { d: hi8(spop_val(s)), e: lo8(spop_val(s)), ..spop_next(s) }),  // POP DE
        0xD2 => if !s.cf {
            (CpuView { pc: imv16(s), ..s })
        } else {
            imn16(s)
        },  // JP NC,a16
        0xD3 => s,  // unassigned
        0xD4 => if !s.cf {
            scall(s)
        } else {
            imn16(s)
        },  // CALL NC,a16
        0xD5 => spush(s, de_of(s)),  // PUSH DE
        0xD6 => ssub(imn(s), imv(s)),  // SUB d8
        0xD7 => srst(s, 0x10),  // RST 10H
        0xD8 => if s.cf {
            sret(s)
        } else {
            s
        },  // RET C
        0xD9 => sret(s),  // RETI: the interrupt enable is out of scope
        0xDA => if s.cf {
            (CpuView { pc: imv16(s), ..s })
        } else {
            imn16(s)
        },  // JP C,a16
        0xDB => s,  // unassigned
        0xDC => if s.cf {
            scall(s)
        } else {
            imn16(s)
        },  // CALL C,a16
        0xDD => s,  // unassigned
        0xDE => ssbc(imn(s), imv(s)),  // SBC d8
        0xDF => srst(s, 0x18),  // RST 18H
        0xE0 => (CpuView {
            mem: byte_write(s.mem, (0xFF00 + imv(s)) as u16, s.a),
            ..imn(s)
        }),  // LDH (a8),A
        0xE1 => (CpuView { h: hi8(spop_val(s)), l: lo8(spop_val(s)), ..spop_next(s) }),  // POP HL
        0xE2 => (CpuView { mem: byte_write(s.mem, (0xFF00 + s.c) as u16, s.a), ..s }),  // LD (C),A
        0xE3 => s,  // unassigned
        0xE4 => s,  // unassigned
        0xE5 => spush(s, hl_of(s)),  // PUSH HL
        0xE6 => sand(imn(s), imv(s)),  // AND d8
        0xE7 => srst(s, 0x20),  // RST 20H
        0xE8 => (CpuView { sp: simm_r(s, s.sp), ..simm_f(s, s.sp) }),  // ADD SP,r8
        0xE9 => (CpuView { pc: hl_of(s), ..s }),  // JP (HL)
        0xEA => (CpuView { mem: byte_write(s.mem, imv16(s), s.a), ..imn16(s) }),  // LD (a16),A
        0xEB => s,  // unassigned
        0xEC => s,  // unassigned
        0xED => s,  // unassigned
        0xEE => sxor(imn(s), imv(s)),  // XOR d8
        0xEF => srst(s, 0x28),  // RST 28H
        0xF0 => (CpuView { a: byte_at(s.mem, (0xFF00 + imv(s)) as u16), ..imn(s) }),  // LDH A,(a8)
        0xF1 => with_af(spop_next(s), spop_val(s)),  // POP AF
        0xF2 => (CpuView { a: byte_at(s.mem, (0xFF00 + s.c) as u16), ..s }),  // LD A,(C)
        0xF3 => s,  // DI: the interrupt enable is out of scope
        0xF4 => s,  // unassigned
        0xF5 => spush(s, af_of(s)),  // PUSH AF
        0xF6 => sor(imn(s), imv(s)),  // OR d8
        0xF7 => srst(s, 0x30),  // RST 30H
        0xF8 => (CpuView {
            h: hi8(simm_r(s, s.sp)),
            l: lo8(simm_r(s, s.sp)),
            ..simm_f(s, s.sp)
        }),  // LD HL,SP+r8
        0xF9 => (CpuView { sp: hl_of(s), ..s }),  // LD SP,HL
        0xFA => (CpuView { a: byte_at(s.mem, imv16(s)), ..imn16(s) }),  // LD A,(a16)
        0xFB => s,  // EI: the interrupt enable is out of scope
        0xFC => s,  // unassigned
        0xFD => s,  // unassigned
        0xFE => scp(imn(s), imv(s)),  // CP d8
        0xFF => srst(s, 0x38),  // RST 38H
        _ => s,
    }
}

/// One primary-table instruction, applied after the opcode fetch.
pub open spec fn spec_step(s: CpuView, op: u8) -> CpuView {
    if op < 0x40 {
        spec_lo(s, op)
    } else if op < 0x80 {
        spec_ld(s, op)
    } else if op < 0xC0 {
        spec_arith(s, op)
    } else {
        spec_hi(s, op)
    }
}

/// One full instruction step: the opcode byte is fetched at the program
/// counter (advancing it); 0xCB fetches a second byte and dispatches
/// through the extended table, every other opcode dispatches through the
/// primary table.
pub open spec fn spec_ex(s: CpuView) -> CpuView {
    let op = imv(s);
    let s1 = imn(s);
    if op == 0xCB {
        spec_cb(imn(s1), imv(s1))
    } else {
        spec_step(s1, op)
    }
}

impl CPU {
    /// Executes one instruction from the low quadrant of the primary table
    /// (opcodes 0x00..0x3F), the opcode already fetched.
    fn ex_lo(&mut self, op: u8)
        requires
            old(self).wf(),
            op < 0x40,
        ensures
            final(self).wf(),
            final(self)@ == spec_lo(old(self)@, op),
    {
        match op {
            0x00 => {},
            0x01 => {
                let v = self.imm_hw();
                self.reg.set_bc(v);
            },
            0x02 => {
                let addr = self.reg.get_bc();
                self.mem.set(addr, self.reg.a);
            },
            0x03 => {
                let v = self.reg.get_bc().wrapping_add(1);
                self.reg.set_bc(v);
            },
            0x04 => {
                let r = self.alu_inc(self.reg.b);
                self.reg.b = r;
            },
            0x05 => {
                let r = self.alu_dec(self.reg.b);
                self.reg.b = r;
            },
            0x06 => {
                let v = self.imm();
                self.reg.b = v;
            },
            0x07 => {
                let a = self.reg.a;
                let r = self.alu_rlc(a);
                self.reg.a = r;
                self.set_flag(Flag::Z, false);
            },
            0x08 => {
                let addr = self.imm_hw();
                let sp = self.reg.sp;
                self.mem.set_hw(addr, sp);
            },
            0x09 => {
                let v = self.reg.get_bc();
                self.alu_add_hw_hl(v);
            },
            0x0A => {
                let addr = self.reg.get_bc();
                self.reg.a = self.mem.get(addr);
            },
            0x0B => {
                let v = self.reg.get_bc().wrapping_sub(1);
                self.reg.set_bc(v);
            },
            0x0C => {
                let r = self.alu_inc(self.reg.c);
                self.reg.c = r;
            },
            0x0D => {
                let r = self.alu_dec(self.reg.c);
                self.reg.c = r;
            },
            0x0E => {
                let v = self.imm();
                self.reg.c = v;
            },
            0x0F => {
                let a = self.reg.a;
                let r = self.alu_rrc(a);
                self.reg.a = r;
                self.set_flag(Flag::Z, false);
            },
            0x10 => {
                // STOP: the passive state is out of scope; treated as an advance.
            },
            0x11 => {
                let v = self.imm_hw();
                self.reg.set_de(v);
            },
            0x12 => {
                let addr = self.reg.get_de();
                self.mem.set(addr, self.reg.a);
            },
            0x13 => {
                let v = self.reg.get_de().wrapping_add(1);
                self.reg.set_de(v);
            },
            0x14 => {
                let r = self.alu_inc(self.reg.d);
                self.reg.d = r;
            },
            0x15 => {
                let r = self.alu_dec(self.reg.d);
                self.reg.d = r;
            },
            0x16 => {
                let v = self.imm();
                self.reg.d = v;
            },
            0x17 => {
                let a = self.reg.a;
                let r = self.alu_rl(a);
                self.reg.a = r;
                self.set_flag(Flag::Z, false);
            },
            0x18 => self.alu_jr(),
            0x19 => {
                let v = self.reg.get_de();
                self.alu_add_hw_hl(v);
            },
            0x1A => {
                let addr = self.reg.get_de();
                self.reg.a = self.mem.get(addr);
            },
            0x1B => {
                let v = self.reg.get_de().wrapping_sub(1);
                self.reg.set_de(v);
            },
            0x1C => {
                let r = self.alu_inc(self.reg.e);
                self.reg.e = r;
            },
            0x1D => {
                let r = self.alu_dec(self.reg.e);
                self.reg.e = r;
            },
            0x1E => {
                let v = self.imm();
                self.reg.e = v;
            },
            0x1F => {
                let a = self.reg.a;
                let r = self.alu_rr(a);
                self.reg.a = r;
                self.set_flag(Flag::Z, false);
            },
            0x20 => {
                if !self.flag_z() {
                    self.alu_jr();
                } else {
                    let _skip: u8 = self.imm();
                }
            },
            0x21 => {
                let v = self.imm_hw();
                self.reg.set_hl(v);
            },
            0x22 => {
                let hl = self.reg.get_hl();
                self.mem.set(hl, self.reg.a);
                self.reg.set_hl(hl.wrapping_add(1));
            },
            0x23 => {
                let v = self.reg.get_hl().wrapping_add(1);
                self.reg.set_hl(v);
            },
            0x24 => {
                let r = self.alu_inc(self.reg.h);
                self.reg.h = r;
            },
            0x25 => {
                let r = self.alu_dec(self.reg.h);
                self.reg.h = r;
            },
            0x26 => {
                let v = self.imm();
                self.reg.h = v;
            },
            0x27 => self.alu_daa(),
            0x28 => {
                if self.flag_z() {
                    self.alu_jr();
                } else {
                    let _skip: u8 = self.imm();
                }
            },
            0x29 => {
                let v = self.reg.get_hl();
                self.alu_add_hw_hl(v);
            },
            0x2A => {
                let hl = self.reg.get_hl();
                let v = self.mem.get(hl);
                self.reg.a = v;
                self.reg.set_hl(hl.wrapping_add(1));
            },
            0x2B => {
                let v = self.reg.get_hl().wrapping_sub(1);
                self.reg.set_hl(v);
            },
            0x2C => {
                let r = self.alu_inc(self.reg.l);
                self.reg.l = r;
            },
            0x2D => {
                let r = self.alu_dec(self.reg.l);
                self.reg.l = r;
            },
            0x2E => {
                let v = self.imm();
                self.reg.l = v;
            },
            0x2F => self.alu_cpl(),
            0x30 => {
                if !self.flag_c() {
                    self.alu_jr();
                } else {
                    let _skip: u8 = self.imm();
                }
            },
            0x31 => {
                let v = self.imm_hw();
                self.reg.sp = v;
            },
            0x32 => {
                let hl = self.reg.get_hl();
                self.mem.set(hl, self.reg.a);
                self.reg.set_hl(hl.wrapping_sub(1));
            },
            0x33 => {
                self.reg.sp = self.reg.sp.wrapping_add(1);
            },
            0x34 => {
                let hl = self.reg.get_hl();
                let v = self.mem.get(hl);
                let r = self.alu_inc(v);
                self.mem.set(hl, r);
            },
            0x35 => {
                let hl = self.reg.get_hl();
                let v = self.mem.get(hl);
                let r = self.alu_dec(v);
                self.mem.set(hl, r);
            },
            0x36 => {
                let v = self.imm();
                let hl = self.reg.get_hl();
                self.mem.set(hl, v);
            },
            0x37 => self.alu_scf(),
            0x38 => {
                if self.flag_c() {
                    self.alu_jr();
                } else {
                    let _skip: u8 = self.imm();
                }
            },
            0x39 => {
                let v = self.reg.sp;
                self.alu_add_hw_hl(v);
            },
            0x3A => {
                let hl = self.reg.get_hl();
                let v = self.mem.get(hl);
                self.reg.a = v;
                self.reg.set_hl(hl.wrapping_sub(1));
            },
            0x3B => {
                self.reg.sp = self.reg.sp.wrapping_sub(1);
            },
            0x3C => {
                let r = self.alu_inc(self.reg.a);
                self.reg.a = r;
            },
            0x3D => {
                let r = self.alu_dec(self.reg.a);
                self.reg.a = r;
            },
            0x3E => {
                let v = self.imm();
                self.reg.a = v;
            },
            0x3F => self.alu_ccf(),
            _ => {},
        }
    }

    /// Executes one instruction from the high quadrant of the primary
    /// table (opcodes 0xC0..0xFF), the opcode already fetched.
    fn ex_hi(&mut self, op: u8)
        requires
            old(self).wf(),
            0xC0 <= op,
        ensures
            final(self).wf(),
            final(self)@ == spec_hi(old(self)@, op),
    {
        match op {
            0xC0 => {
                if !self.flag_z() {
                    let t = self.stack_pop();
                    self.reg.pc = t;
                }
            },
            0xC1 => {
                let v = self.stack_pop();
                self.reg.set_bc(v);
            },
            0xC2 => {
                let t = self.imm_hw();
                if !self.flag_z() {
                    self.reg.pc = t;
                }
            },
            0xC3 => {
                let t = self.imm_hw();
                self.reg.pc = t;
            },
            0xC4 => {
                let t = self.imm_hw();
                if !self.flag_z() {
                    let ret = self.reg.pc;
                    self.stack_push(ret);
                    self.reg.pc = t;
                }
            },
            0xC5 => {
                let v = self.reg.get_bc();
                self.stack_push(v);
            },
            0xC6 => {
                let v = self.imm();
                self.alu_add(v);
            },
            0xC7 => {
                let ret = self.reg.pc;
                self.stack_push(ret);
                self.reg.pc = 0x00;
            },
            0xC8 => {
                if self.flag_z() {
                    let t = self.stack_pop();
                    self.reg.pc = t;
                }
            },
            0xC9 => {
                let t = self.stack_pop();
                self.reg.pc = t;
            },
            0xCA => {
                let t = self.imm_hw();
                if self.flag_z() {
                    self.reg.pc = t;
                }
            },
            0xCB => {
                // the prefix itself is handled before this table
            },
            0xCC => {
                let t = self.imm_hw();
                if self.flag_z() {
                    let ret = self.reg.pc;
                    self.stack_push(ret);
                    self.reg.pc = t;
                }
            },
            0xCD => {
                let t = self.imm_hw();
                let ret = self.reg.pc;
                self.stack_push(ret);
                self.reg.pc = t;
            },
            0xCE => {
                let v = self.imm();
                self.alu_adc(v);
            },
            0xCF => {
                let ret = self.reg.pc;
                self.stack_push(ret);
                self.reg.pc = 0x08;
            },
            0xD0 => {
                if !self.flag_c() {
                    let t = self.stack_pop();
                    self.reg.pc = t;
                }
            },
            0xD1 => {
                let v = self.stack_pop();
                self.reg.set_de(v);
            },
            0xD2 => {
                let t = self.imm_hw();
                if !self.flag_c() {
                    self.reg.pc = t;
                }
            },
            0xD3 => {},
            0xD4 => {
                let t = self.imm_hw();
                if !self.flag_c() {
                    let ret = self.reg.pc;
                    self.stack_push(ret);
                    self.reg.pc = t;
                }
            },
            0xD5 => {
                let v = self.reg.get_de();
                self.stack_push(v);
            },
            0xD6 => {
                let v = self.imm();
                self.alu_sub(v);
            },
            0xD7 => {
                let ret = self.reg.pc;
                self.stack_push(ret);
                self.reg.pc = 0x10;
            },
            0xD8 => {
                if self.flag_c() {
                    let t = self.stack_pop();
                    self.reg.pc = t;
                }
            },
            0xD9 => {
                let t = self.stack_pop();
                self.reg.pc = t;
            },
            0xDA => {
                let t = self.imm_hw();
                if self.flag_c() {
                    self.reg.pc = t;
                }
            },
            0xDB => {},
            0xDC => {
                let t = self.imm_hw();
                if self.flag_c() {
                    let ret = self.reg.pc;
                    self.stack_push(ret);
                    self.reg.pc = t;
                }
            },
            0xDD => {},
            0xDE => {
                let v = self.imm();
                self.alu_sbc(v);
            },
            0xDF => {
                let ret = self.reg.pc;
                self.stack_push(ret);
                self.reg.pc = 0x18;
            },
            0xE0 => {
                let d = self.imm();
                self.mem.set(0xFF00 + d as u16, self.reg.a);
            },
            0xE1 => {
                let v = self.stack_pop();
                self.reg.set_hl(v);
            },
            0xE2 => {
                let addr = 0xFF00 + self.reg.c as u16;
                self.mem.set(addr, self.reg.a);
            },
            0xE3 => {},
            0xE4 => {},
            0xE5 => {
                let v = self.reg.get_hl();
                self.stack_push(v);
            },
            0xE6 => {
                let v = self.imm();
                self.alu_and(v);
            },
            0xE7 => {
                let ret = self.reg.pc;
                self.stack_push(ret);
                self.reg.pc = 0x20;
            },
            0xE8 => {
                let sp = self.reg.sp;
                let r = self.alu_add_hw_imm(sp);
                self.reg.sp = r;
            },
            0xE9 => {
                self.reg.pc = self.reg.get_hl();
            },
            0xEA => {
                let addr = self.imm_hw();
                self.mem.set(addr, self.reg.a);
            },
            0xEB => {},
            0xEC => {},
            0xED => {},
            0xEE => {
                let v = self.imm();
                self.alu_xor(v);
            },
            0xEF => {
                let ret = self.reg.pc;
                self.stack_push(ret);
                self.reg.pc = 0x28;
            },
            0xF0 => {
                let d = self.imm();
                let v = self.mem.get(0xFF00 + d as u16);
                self.reg.a = v;
            },
            0xF1 => {
                let v = self.stack_pop();
                self.reg.set_af(v);
                proof {
                    crate::register::lemma_mask_high_nibble(lo8(v));
                }
            },
            0xF2 => {
                let addr = 0xFF00 + self.reg.c as u16;
                let v = self.mem.get(addr);
                self.reg.a = v;
            },
            0xF3 => {},
            0xF4 => {},
            0xF5 => {
                let v = self.af();
                self.stack_push(v);
            },
            0xF6 => {
                let v = self.imm();
                self.alu_or(v);
            },
            0xF7 => {
                let ret = self.reg.pc;
                self.stack_push(ret);
                self.reg.pc = 0x30;
            },
            0xF8 => {
                let sp = self.reg.sp;
                let r = self.alu_add_hw_imm(sp);
                self.reg.set_hl(r);
            },
            0xF9 => {
                self.reg.sp = self.reg.get_hl();
            },
            0xFA => {
                let addr = self.imm_hw();
                let v = self.mem.get(addr);
                self.reg.a = v;
            },
            0xFB => {},
            0xFC => {},
            0xFD => {},
            0xFE => {
                let v = self.imm();
                self.alu_cp(v);
            },
            0xFF => {
                let ret = self.reg.pc;
                self.stack_push(ret);
                self.reg.pc = 0x38;
            },
            _ => {},
        }
    }

    /// Fetches, decodes and executes exactly one instruction (a primary
    /// opcode, or the 0xCB prefix and its extended opcode). Every entry of
    /// both 256-entry tables is a total transformation of the machine
    /// state, given by the interpreter `spec_ex`.
    pub fn ex(&mut self)
        requires
            old(self).wf(),
        ensures
            final(self).wf(),
            final(self)@ == spec_ex(old(self)@),
    {
        let op = self.imm();
        if op == 0xCB {
            let op2 = self.imm();
            self.ex_cb(op2);
        } else if op < 0x40 {
            self.ex_lo(op);
        } else if op < 0x80 {
            self.ex_ld(op);
        } else if op < 0xC0 {
            self.ex_arith(op);
        } else {
            self.ex_hi(op);
        }
    }

    /// Reads the operand with index `idx`: B, C, D, E, H, L, the byte at
    /// (HL), or A.
    pub(crate) fn read_operand(&self, idx: u8) -> (r: u8)
        requires
            self.wf(),
            idx < 8,
        ensures
            r == rd_op(self@, idx),
    {
        match idx {
            0 => self.reg.b,
            1 => self.reg.c,
            2 => self.reg.d,
            3 => self.reg.e,
            4 => self.reg.h,
            5 => self.reg.l,
            6 => {
                let hl = self.reg.get_hl();
                self.mem.get(hl)
            },
            _ => self.reg.a,
        }
    }

    /// Stores `v` into the operand with index `idx`.
    pub(crate) fn write_operand(&mut self, idx: u8, v: u8)
        requires
            old(self).wf(),
            idx < 8,
        ensures
            final(self).wf(),
            final(self)@ == wr_op(old(self)@, idx, v),
    {
        match idx {
            0 => {
                self.reg.b = v;
            },
            1 => {
                self.reg.c = v;
            },
            2 => {
                self.reg.d = v;
            },
            3 => {
                self.reg.e = v;
            },
            4 => {
                self.reg.h = v;
            },
            5 => {
                self.reg.l = v;
            },
            6 => {
                let hl = self.reg.get_hl();
                self.mem.set(hl, v);
            },
            _ => {
                self.reg.a = v;
            },
        }
    }

    /// Executes one extended (0xCB-prefixed) instruction, both opcode bytes
    /// already fetched.
    fn ex_cb(&mut self, op: u8)
        requires
            old(self).wf(),
        ensures
            final(self).wf(),
            final(self)@ == spec_cb(old(self)@, op),
    {
        let idx = op % 8;
        let v = self.read_operand(idx);
        if op < 0x40 {
            let g = op / 8;
            let r = match g {
                0 => self.alu_rlc(v),
                1 => self.alu_rrc(v),
                2 => self.alu_rl(v),
                3 => self.alu_rr(v),
                4 => self.alu_sla(v),
                5 => self.alu_sra(v),
                6 => self.alu_swap(v),
                _ => self.alu_srl(v),
            };
            self.write_operand(idx, r);
        } else {
            let b = (op / 8) % 8;
            if op < 0x80 {
                self.alu_bit(b, v);
            } else if op < 0xC0 {
                let r = self.alu_reset(b, v);
                self.write_operand(idx, r);
            } else {
                let r = self.alu_set(b, v);
                self.write_operand(idx, r);
            }
        }
    }

    /// Executes one register-to-register load (opcodes 0x40..0x7F), the
    /// opcode already fetched.
    fn ex_ld(&mut self, op: u8)
        requires
            old(self).wf(),
            0x40 <= op < 0x80,
        ensures
            final(self).wf(),
            final(self)@ == spec_ld(old(self)@, op),
    {
        if op == 0x76 {
            // HALT: the passive state is out of scope; treated as an advance.
        } else {
            let v = self.read_operand(op % 8);
            self.write_operand((op / 8) % 8, v);
        }
    }

    /// Executes one 8-bit accumulator operation (opcodes 0x80..0xBF), the
    /// opcode already fetched.
    fn ex_arith(&mut self, op: u8)
        requires
            old(self).wf(),
            0x80 <= op < 0xC0,
        ensures
            final(self).wf(),
            final(self)@ == spec_arith(old(self)@, op),
    {
        let v = self.read_operand(op % 8);
        match (op / 8) % 8 {
            0 => self.alu_add(v),
            1 => self.alu_adc(v),
            2 => self.alu_sub(v),
            3 => self.alu_sbc(v),
            4 => self.alu_and(v),
            5 => self.alu_xor(v),
            6 => self.alu_or(v),
            _ => self.alu_cp(v),
        }
    }
}

} // verus!
