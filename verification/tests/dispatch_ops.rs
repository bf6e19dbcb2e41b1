use gameboy::cpu::CPU;

/// A CPU with `program` placed at the reset program counter (0x100).
fn boot(program: &[u8]) -> CPU {
    let mut c: CPU = Default::default();
    let mut addr: u16 = 0x100;
    for &byte in program {
        c.mem.set(addr, byte);
        addr += 1;
    }
    c
}

#[test]
fn nop_advances_only_pc() {
    // pc = 0x0150, a NOP there: afterwards pc = 0x0151 and nothing else
    // changed.
    let mut c: CPU = Default::default();
    c.reg.pc = 0x0150;
    c.mem.set(0x0150, 0x00);
    c.ex();
    assert_eq!(c.pc(), 0x0151);
    assert_eq!(c.sp(), 0xFFFE);
    assert_eq!(c.a(), 0);
    assert_eq!(c.b(), 0);
    assert_eq!(c.c(), 0);
    assert_eq!(c.d(), 0);
    assert_eq!(c.e(), 0);
    assert_eq!(c.h(), 0);
    assert_eq!(c.l(), 0);
    assert_eq!(c.flag_z(), false);
    assert_eq!(c.flag_n(), false);
    assert_eq!(c.flag_h(), false);
    assert_eq!(c.flag_c(), false);
}

#[test]
fn set_bc_splits_full_bytes() {
    // The pair setter assigns full bytes, high byte first.
    let mut c: CPU = Default::default();
    c.reg.set_bc(0x1234);
    assert_eq!(c.b(), 0x12);
    assert_eq!(c.c(), 0x34);
    assert_eq!(c.bc(), 0x1234);
}

#[test]
fn push_bc_pop_de() {
    // BC = 0x1234; PUSH BC then POP DE gives DE = 0x1234 and the stack
    // pointer back where it started.
    let mut c = boot(&[0xC5, 0xD1]);
    c.reg.set_bc(0x1234);
    let sp_before = c.sp();
    c.ex();
    assert_eq!(c.sp(), sp_before.wrapping_sub(2));
    c.ex();
    assert_eq!(c.de(), 0x1234);
    assert_eq!(c.sp(), sp_before);
}

#[test]
fn push_pop_af_masks_low_nibble() {
    // POP AF reads the accumulator and flags; the low nibble of F stays
    // architecturally zero.
    let mut c = boot(&[0xF1]);
    c.reg.sp = 0xFFF0;
    c.mem.set(0xFFF0, 0xFF);
    c.mem.set(0xFFF1, 0x12);
    c.ex();
    assert_eq!(c.a(), 0x12);
    assert_eq!(c.reg.f, 0xF0);
    assert_eq!(c.flag_z(), true);
    assert_eq!(c.flag_n(), true);
    assert_eq!(c.flag_h(), true);
    assert_eq!(c.flag_c(), true);
    assert_eq!(c.af(), 0x12F0);
}

#[test]
fn ld_register_grid() {
    // LD B,C and the degenerate LD D,D.
    let mut c = boot(&[0x41, 0x52]);
    c.reg.c = 0x77;
    c.reg.d = 0x21;
    c.ex();
    assert_eq!(c.b(), 0x77);
    c.ex();
    assert_eq!(c.d(), 0x21);
}

#[test]
fn ld_through_hl() {
    // LD (HL),d8 then LD E,(HL).
    let mut c = boot(&[0x36, 0x9A, 0x5E]);
    c.reg.set_hl(0x3000);
    c.ex();
    assert_eq!(c.mem.get(0x3000), 0x9A);
    c.ex();
    assert_eq!(c.e(), 0x9A);
}

#[test]
fn ld_hl_increment_decrement() {
    // LD (HL+),A stores and steps HL up; LD A,(HL-) loads and steps down.
    let mut c = boot(&[0x22, 0x3A]);
    c.reg.a = 0x42;
    c.reg.set_hl(0x2500);
    c.ex();
    assert_eq!(c.mem.get(0x2500), 0x42);
    assert_eq!(c.hl(), 0x2501);
    c.mem.set(0x2501, 0x55);
    c.ex();
    assert_eq!(c.a(), 0x55);
    assert_eq!(c.hl(), 0x2500);
}

#[test]
fn inc_dec_pairs() {
    // INC BC crosses a byte boundary; DEC DE wraps to 0xFFFF.
    let mut c = boot(&[0x03, 0x1B]);
    c.reg.set_bc(0x00FF);
    c.reg.set_de(0x0000);
    c.ex();
    assert_eq!(c.bc(), 0x0100);
    c.ex();
    assert_eq!(c.de(), 0xFFFF);
}

#[test]
fn inc_dec_memory_operand() {
    // INC (HL) and DEC (HL) act on the byte behind the pointer.
    let mut c = boot(&[0x34, 0x35]);
    c.reg.set_hl(0x2800);
    c.mem.set(0x2800, 0x0F);
    c.ex();
    assert_eq!(c.mem.get(0x2800), 0x10);
    assert_eq!(c.flag_h(), true);
    c.ex();
    assert_eq!(c.mem.get(0x2800), 0x0F);
    assert_eq!(c.flag_n(), true);
}

#[test]
fn jump_absolute() {
    let mut c = boot(&[0xC3, 0x00, 0x02]);
    c.ex();
    assert_eq!(c.pc(), 0x0200);
}

#[test]
fn jump_relative_backwards() {
    // JR -2 lands back on the JR itself.
    let mut c = boot(&[0x18, 0xFE]);
    c.ex();
    assert_eq!(c.pc(), 0x0100);
}

#[test]
fn jump_relative_conditional() {
    // XOR A sets Z, so JR NZ,+5 falls through; JR Z,+5 is taken.
    let mut c = boot(&[0xAF, 0x20, 0x05, 0x28, 0x05]);
    c.ex();
    assert_eq!(c.flag_z(), true);
    c.ex();
    assert_eq!(c.pc(), 0x0103);
    c.ex();
    assert_eq!(c.pc(), 0x010A);
}

#[test]
fn call_and_ret() {
    // CALL 0x0150 pushes the return address; RET there comes back.
    let mut c = boot(&[0xCD, 0x50, 0x01]);
    c.mem.set(0x0150, 0xC9);
    c.ex();
    assert_eq!(c.pc(), 0x0150);
    assert_eq!(c.sp(), 0xFFFC);
    assert_eq!(c.mem.get(0xFFFC), 0x03);
    assert_eq!(c.mem.get(0xFFFD), 0x01);
    c.ex();
    assert_eq!(c.pc(), 0x0103);
    assert_eq!(c.sp(), 0xFFFE);
}

#[test]
fn conditional_call_not_taken() {
    // With Z clear, CALL Z skips over its operand.
    let mut c = boot(&[0xCC, 0x50, 0x01]);
    c.ex();
    assert_eq!(c.pc(), 0x0103);
    assert_eq!(c.sp(), 0xFFFE);
}

#[test]
fn conditional_ret_on_carry() {
    // SCF then RET C pops the prepared return address.
    let mut c = boot(&[0x37, 0xD8]);
    c.reg.sp = 0xFFF0;
    c.mem.set(0xFFF0, 0x34);
    c.mem.set(0xFFF1, 0x12);
    c.ex();
    c.ex();
    assert_eq!(c.pc(), 0x1234);
    assert_eq!(c.sp(), 0xFFF2);
}

#[test]
fn restart_vector() {
    // RST 38H pushes the return address and jumps to 0x0038.
    let mut c = boot(&[0xFF]);
    c.ex();
    assert_eq!(c.pc(), 0x0038);
    assert_eq!(c.sp(), 0xFFFC);
    assert_eq!(c.mem.get(0xFFFC), 0x01);
    assert_eq!(c.mem.get(0xFFFD), 0x01);
}

#[test]
fn jump_through_hl() {
    let mut c = boot(&[0xE9]);
    c.reg.set_hl(0x4321);
    c.ex();
    assert_eq!(c.pc(), 0x4321);
}

#[test]
fn high_page_loads_and_stores() {
    // LDH (a8),A and LDH A,(a8) use the 0xFF00 page; LD (C),A too.
    let mut c = boot(&[0xE0, 0x10, 0x3E, 0x00, 0xF0, 0x10, 0xE2]);
    c.reg.a = 0x42;
    c.ex();
    assert_eq!(c.mem.get(0xFF10), 0x42);
    c.ex();
    assert_eq!(c.a(), 0x00);
    c.ex();
    assert_eq!(c.a(), 0x42);
    c.reg.c = 0x20;
    c.ex();
    assert_eq!(c.mem.get(0xFF20), 0x42);
}

#[test]
fn absolute_loads_and_stores() {
    // LD (a16),A then LD A,(a16) from somewhere else.
    let mut c = boot(&[0xEA, 0x00, 0x30, 0xFA, 0x00, 0x30]);
    c.reg.a = 0x66;
    c.ex();
    assert_eq!(c.mem.get(0x3000), 0x66);
    c.reg.a = 0x00;
    c.ex();
    assert_eq!(c.a(), 0x66);
}

#[test]
fn ld_sixteen_bit_immediates() {
    let mut c = boot(&[0x01, 0x34, 0x12, 0x11, 0x78, 0x56, 0x21, 0xBC, 0x9A, 0x31, 0xF0, 0xDD]);
    c.ex();
    assert_eq!(c.bc(), 0x1234);
    c.ex();
    assert_eq!(c.de(), 0x5678);
    c.ex();
    assert_eq!(c.hl(), 0x9ABC);
    c.ex();
    assert_eq!(c.sp(), 0xDDF0);
}

#[test]
fn store_sp_absolute() {
    // LD (a16),SP writes the stack pointer little-endian.
    let mut c = boot(&[0x08, 0x00, 0x40]);
    c.ex();
    assert_eq!(c.mem.get(0x4000), 0xFE);
    assert_eq!(c.mem.get(0x4001), 0xFF);
}

#[test]
fn indirect_pair_loads() {
    // LD (BC),A then LD A,(DE).
    let mut c = boot(&[0x02, 0x1A]);
    c.reg.a = 0x99;
    c.reg.set_bc(0x2100);
    c.reg.set_de(0x2200);
    c.mem.set(0x2200, 0x17);
    c.ex();
    assert_eq!(c.mem.get(0x2100), 0x99);
    c.ex();
    assert_eq!(c.a(), 0x17);
}

#[test]
fn unassigned_opcodes_advance() {
    // The table entries the instruction set leaves unassigned only fetch.
    let mut c = boot(&[0xD3, 0xDB, 0xE4]);
    c.ex();
    c.ex();
    c.ex();
    assert_eq!(c.pc(), 0x0103);
    assert_eq!(c.sp(), 0xFFFE);
    assert_eq!(c.a(), 0);
}

#[test]
fn halt_and_stop_advance() {
    let mut c = boot(&[0x76, 0x10]);
    c.ex();
    assert_eq!(c.pc(), 0x0101);
    c.ex();
    assert_eq!(c.pc(), 0x0102);
}

#[test]
fn conditional_call_taken() {
    // With Z clear, CALL NZ behaves like CALL.
    let mut c = boot(&[0xC4, 0x50, 0x01]);
    c.ex();
    assert_eq!(c.pc(), 0x0150);
    assert_eq!(c.sp(), 0xFFFC);
    assert_eq!(c.mem.get(0xFFFC), 0x03);
    assert_eq!(c.mem.get(0xFFFD), 0x01);
}

#[test]
fn conditional_ret_not_taken() {
    // XOR A sets Z, so RET NZ falls through to the next instruction.
    let mut c = boot(&[0xAF, 0xC0]);
    c.ex();
    c.ex();
    assert_eq!(c.pc(), 0x0102);
    assert_eq!(c.sp(), 0xFFFE);
}

#[test]
fn conditional_jump_both_ways() {
    // With carry clear, JP C falls through; JP NC is taken.
    let mut c = boot(&[0xDA, 0x00, 0x02, 0xD2, 0x00, 0x03]);
    c.ex();
    assert_eq!(c.pc(), 0x0103);
    c.ex();
    assert_eq!(c.pc(), 0x0300);
}

#[test]
fn add_hl_carry_out() {
    // ADD HL,HL at 0x8000 carries out of bit 15 and wraps to zero.
    let mut c = boot(&[0x29, 0x39]);
    c.reg.set_hl(0x8000);
    c.ex();
    assert_eq!(c.hl(), 0x0000);
    assert_eq!(c.flag_c(), true);
    assert_eq!(c.flag_h(), false);
    // ADD HL,SP then lands on the reset stack pointer value.
    c.ex();
    assert_eq!(c.hl(), 0xFFFE);
}

#[test]
fn ld_sp_hl() {
    let mut c = boot(&[0xF9]);
    c.reg.set_hl(0x8000);
    c.ex();
    assert_eq!(c.sp(), 0x8000);
}
