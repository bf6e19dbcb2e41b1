use gameboy::cpu::CPU;

/// A CPU with `program` placed at the reset program counter (0x100).
fn boot(program: &[u8]) -> CPU {
    let mut c: CPU = Default::default();
    let mut addr: u16 = 0x100;
    for &byte in program {
        c.mem.set(addr, byte);
        addr += 1;
    }
    c
}

#[test]
fn add_immediate_scenario() {
    // a = 0x3C, carry clear; ADD 0xFF gives 0x3B with N=0, H=1, C=1, Z=0.
    let mut c = boot(&[0xC6, 0xFF]);
    c.reg.a = 0x3C;
    c.ex();
    assert_eq!(c.a(), 0x3B);
    assert_eq!(c.flag_z(), false);
    assert_eq!(c.flag_n(), false);
    assert_eq!(c.flag_h(), true);
    assert_eq!(c.flag_c(), true);
}

#[test]
fn add_then_sub_restores() {
    // ADD 7 then SUB 7 restores the accumulator; N is set, Z clear.
    let mut c = boot(&[0xC6, 0x07, 0xD6, 0x07]);
    c.reg.a = 0x05;
    c.ex();
    assert_eq!(c.a(), 0x0C);
    c.ex();
    assert_eq!(c.a(), 0x05);
    assert_eq!(c.flag_z(), false);
    assert_eq!(c.flag_n(), true);
}

#[test]
fn inc_then_dec_restores() {
    // INC A then DEC A restores 0x0F; INC sets H (carry out of bit 3),
    // DEC recomputes it.
    let mut c = boot(&[0x3C, 0x3D]);
    c.reg.a = 0x0F;
    c.ex();
    assert_eq!(c.a(), 0x10);
    assert_eq!(c.flag_h(), true);
    assert_eq!(c.flag_n(), false);
    c.ex();
    assert_eq!(c.a(), 0x0F);
    assert_eq!(c.flag_h(), true);
    assert_eq!(c.flag_n(), true);
    assert_eq!(c.flag_z(), false);
}

#[test]
fn inc_wraps_to_zero() {
    let mut c = boot(&[0x3C]);
    c.reg.a = 0xFF;
    c.ex();
    assert_eq!(c.a(), 0x00);
    assert_eq!(c.flag_z(), true);
    assert_eq!(c.flag_h(), true);
}

#[test]
fn dec_borrows_nibble() {
    let mut c = boot(&[0x3D]);
    c.reg.a = 0x10;
    c.ex();
    assert_eq!(c.a(), 0x0F);
    assert_eq!(c.flag_h(), true);
    assert_eq!(c.flag_n(), true);
}

#[test]
fn adc_uses_carry() {
    // SCF sets the carry; ADC 0x00 on a=0xFF then gives 0x00 with Z, H, C.
    let mut c = boot(&[0x37, 0xCE, 0x00]);
    c.reg.a = 0xFF;
    c.ex();
    assert_eq!(c.flag_c(), true);
    c.ex();
    assert_eq!(c.a(), 0x00);
    assert_eq!(c.flag_z(), true);
    assert_eq!(c.flag_h(), true);
    assert_eq!(c.flag_c(), true);
}

#[test]
fn sbc_uses_carry() {
    // SCF then SBC 0x00 on a=0x00 borrows through: 0xFF with N, H, C.
    let mut c = boot(&[0x37, 0xDE, 0x00]);
    c.reg.a = 0x00;
    c.ex();
    c.ex();
    assert_eq!(c.a(), 0xFF);
    assert_eq!(c.flag_n(), true);
    assert_eq!(c.flag_h(), true);
    assert_eq!(c.flag_c(), true);
}

#[test]
fn and_or_xor_cp_immediates() {
    let mut c = boot(&[0xE6, 0x0F, 0xF6, 0xF0, 0xEE, 0xFF, 0xFE, 0x00]);
    c.reg.a = 0x3C;
    c.ex();  // AND 0x0F
    assert_eq!(c.a(), 0x0C);
    assert_eq!(c.flag_h(), true);
    assert_eq!(c.flag_c(), false);
    c.ex();  // OR 0xF0
    assert_eq!(c.a(), 0xFC);
    assert_eq!(c.flag_h(), false);
    c.ex();  // XOR 0xFF
    assert_eq!(c.a(), 0x03);
    c.ex();  // CP 0x00: flags of SUB, accumulator kept
    assert_eq!(c.a(), 0x03);
    assert_eq!(c.flag_n(), true);
    assert_eq!(c.flag_z(), false);
    assert_eq!(c.flag_c(), false);
}

#[test]
fn xor_a_clears() {
    let mut c = boot(&[0xAF]);
    c.reg.a = 0x5A;
    c.ex();
    assert_eq!(c.a(), 0x00);
    assert_eq!(c.flag_z(), true);
}

#[test]
fn daa_after_bcd_add() {
    // 0x19 + 0x28: binary 0x41, decimal 47; DAA adjusts to 0x47, no carry.
    let mut c = boot(&[0xC6, 0x28, 0x27]);
    c.reg.a = 0x19;
    c.ex();
    assert_eq!(c.a(), 0x41);
    c.ex();
    assert_eq!(c.a(), 0x47);
    assert_eq!(c.flag_c(), false);
    assert_eq!(c.flag_h(), false);
}

#[test]
fn daa_with_decimal_carry() {
    // 0x99 + 0x99: decimal 198; DAA gives 0x98 with the carry set.
    let mut c = boot(&[0xC6, 0x99, 0x27]);
    c.reg.a = 0x99;
    c.ex();
    assert_eq!(c.a(), 0x32);
    c.ex();
    assert_eq!(c.a(), 0x98);
    assert_eq!(c.flag_c(), true);
}

#[test]
fn cpl_complements() {
    let mut c = boot(&[0x2F]);
    c.reg.a = 0x35;
    c.ex();
    assert_eq!(c.a(), 0xCA);
    assert_eq!(c.flag_n(), true);
    assert_eq!(c.flag_h(), true);
}

#[test]
fn scf_ccf() {
    let mut c = boot(&[0x37, 0x3F, 0x3F]);
    c.ex();
    assert_eq!(c.flag_c(), true);
    c.ex();
    assert_eq!(c.flag_c(), false);
    c.ex();
    assert_eq!(c.flag_c(), true);
    assert_eq!(c.flag_n(), false);
    assert_eq!(c.flag_h(), false);
}

#[test]
fn rotate_accumulator() {
    // RLCA: 0x85 -> 0x0B with C=1; RRCA undoes it.
    let mut c = boot(&[0x07, 0x0F]);
    c.reg.a = 0x85;
    c.ex();
    assert_eq!(c.a(), 0x0B);
    assert_eq!(c.flag_c(), true);
    assert_eq!(c.flag_z(), false);
    c.ex();
    assert_eq!(c.a(), 0x85);
    assert_eq!(c.flag_c(), true);
}

#[test]
fn rotate_through_carry() {
    // RLA with carry clear: 0x85 -> 0x0A, C=1; RRA then: 0x85, C=0.
    let mut c = boot(&[0x17, 0x1F]);
    c.reg.a = 0x85;
    c.ex();
    assert_eq!(c.a(), 0x0A);
    assert_eq!(c.flag_c(), true);
    c.ex();
    assert_eq!(c.a(), 0x85);
    assert_eq!(c.flag_c(), false);
}

#[test]
fn swap_twice_restores() {
    // SWAP A (CB 0x37) exchanges the nibbles; doing it twice restores.
    let mut c = boot(&[0xCB, 0x37, 0xCB, 0x37]);
    c.reg.a = 0xAB;
    c.ex();
    assert_eq!(c.a(), 0xBA);
    assert_eq!(c.flag_z(), false);
    assert_eq!(c.flag_c(), false);
    c.ex();
    assert_eq!(c.a(), 0xAB);
}

#[test]
fn shifts_extended_table() {
    // SLA B: 0x80 -> 0x00 with Z and C.
    let mut c = boot(&[0xCB, 0x20]);
    c.reg.b = 0x80;
    c.ex();
    assert_eq!(c.b(), 0x00);
    assert_eq!(c.flag_z(), true);
    assert_eq!(c.flag_c(), true);

    // SRA B: 0x81 -> 0xC0 (sign kept) with C.
    let mut c = boot(&[0xCB, 0x28]);
    c.reg.b = 0x81;
    c.ex();
    assert_eq!(c.b(), 0xC0);
    assert_eq!(c.flag_c(), true);

    // SRL B: 0x81 -> 0x40 with C.
    let mut c = boot(&[0xCB, 0x38]);
    c.reg.b = 0x81;
    c.ex();
    assert_eq!(c.b(), 0x40);
    assert_eq!(c.flag_c(), true);
}

#[test]
fn bit_set_res_extended_table() {
    // BIT 0,B with the bit set: Z clear, H set.
    let mut c = boot(&[0xCB, 0x40, 0xCB, 0x78, 0xCB, 0xC7, 0xCB, 0x87]);
    c.reg.b = 0x01;
    c.reg.a = 0x00;
    c.ex();
    assert_eq!(c.flag_z(), false);
    assert_eq!(c.flag_h(), true);
    // BIT 7,B with the bit clear: Z set.
    c.ex();
    assert_eq!(c.flag_z(), true);
    // SET 0,A on 0x00 gives 0x01.
    c.ex();
    assert_eq!(c.a(), 0x01);
    // RES 0,A gives it back.
    c.ex();
    assert_eq!(c.a(), 0x00);
}

#[test]
fn rotate_memory_operand() {
    // RLC (HL): the rotated byte is written back through the bus.
    let mut c = boot(&[0xCB, 0x06]);
    c.reg.set_hl(0x2000);
    c.mem.set(0x2000, 0x81);
    c.ex();
    assert_eq!(c.mem.get(0x2000), 0x03);
    assert_eq!(c.flag_c(), true);
}

#[test]
fn add_hl_sets_half_carry() {
    // ADD HL,BC with HL=0x0FFF, BC=0x0001: bit-11 carry.
    let mut c = boot(&[0x09]);
    c.reg.set_hl(0x0FFF);
    c.reg.set_bc(0x0001);
    c.ex();
    assert_eq!(c.hl(), 0x1000);
    assert_eq!(c.flag_h(), true);
    assert_eq!(c.flag_c(), false);
    assert_eq!(c.flag_n(), false);
}

#[test]
fn add_sp_signed_displacement() {
    // ADD SP,-2 on the reset stack pointer.
    let mut c = boot(&[0xE8, 0xFE]);
    c.ex();
    assert_eq!(c.sp(), 0xFFFC);
    assert_eq!(c.flag_z(), false);
    assert_eq!(c.flag_n(), false);
    assert_eq!(c.flag_h(), true);
    assert_eq!(c.flag_c(), true);
}

#[test]
fn ld_hl_sp_displacement() {
    // LD HL,SP+1.
    let mut c = boot(&[0xF8, 0x01]);
    c.ex();
    assert_eq!(c.hl(), 0xFFFF);
    assert_eq!(c.sp(), 0xFFFE);
}
