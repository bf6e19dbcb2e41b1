use gameboy::cpu::CPU;
use gameboy::register::Flag::{C, H, N, Z};

#[test]
fn cpu_test_toggle_flags() {
    let mut a: CPU = Default::default();
    assert_eq!(a.flag_n(), false);
    assert_eq!(a.flag_z(), false);
    assert_eq!(a.flag_c(), false);
    assert_eq!(a.flag_h(), false);
    a.set_flag(N, true);
    assert_eq!(a.flag_n(), true);
    assert_eq!(a.flag_z(), false);
    assert_eq!(a.flag_c(), false);
    assert_eq!(a.flag_h(), false);
    a.set_flag(N, false);
    assert_eq!(a.flag_n(), false);
    assert_eq!(a.flag_z(), false);
    assert_eq!(a.flag_c(), false);
    assert_eq!(a.flag_h(), false);
    a.set_flag(Z, true);
    assert_eq!(a.flag_n(), false);
    assert_eq!(a.flag_z(), true);
    assert_eq!(a.flag_c(), false);
    assert_eq!(a.flag_h(), false);
    a.set_flag(Z, false);
    assert_eq!(a.flag_n(), false);
    assert_eq!(a.flag_z(), false);
    assert_eq!(a.flag_c(), false);
    assert_eq!(a.flag_h(), false);
}

#[test]
fn mod_test_toggle_flags() {
    let mut a: CPU = Default::default();
    assert_eq!(a.flag_n(), false);
    assert_eq!(a.flag_z(), false);
    assert_eq!(a.flag_c(), false);
    assert_eq!(a.flag_h(), false);
    a.set_flag(N, true);
    assert_eq!(a.flag_n(), true);
    assert_eq!(a.flag_z(), false);
    assert_eq!(a.flag_c(), false);
    assert_eq!(a.flag_h(), false);
    a.set_flag(N, false);
    assert_eq!(a.flag_n(), false);
    assert_eq!(a.flag_z(), false);
    assert_eq!(a.flag_c(), false);
    assert_eq!(a.flag_h(), false);
    a.set_flag(Z, true);
    assert_eq!(a.flag_n(), false);
    assert_eq!(a.flag_z(), true);
    assert_eq!(a.flag_c(), false);
    assert_eq!(a.flag_h(), false);
    a.set_flag(Z, false);
    assert_eq!(a.flag_n(), false);
    assert_eq!(a.flag_z(), false);
    assert_eq!(a.flag_c(), false);
    assert_eq!(a.flag_h(), false);
}

#[test]
fn set_flag_keeps_others() {
    let mut a: CPU = Default::default();
    a.set_flag(C, true);
    a.set_flag(H, true);
    a.set_flag(Z, true);
    assert_eq!(a.flag_c(), true);
    assert_eq!(a.flag_h(), true);
    assert_eq!(a.flag_z(), true);
    assert_eq!(a.flag_n(), false);
    a.set_flag(H, false);
    assert_eq!(a.flag_c(), true);
    assert_eq!(a.flag_h(), false);
    assert_eq!(a.flag_z(), true);
}
