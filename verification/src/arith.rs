//! Modular (wrap-around) arithmetic and byte/half-word composition.
//!
//! All CPU arithmetic wraps: 8-bit operations modulo 256, 16-bit operations
//! modulo 65536. These spec functions give the wrapped results in the same
//! shape as the executable `wrapping_add` / `wrapping_sub` operations, so the
//! two sides line up definitionally.

use vstd::prelude::*;

verus! {

/// 8-bit addition modulo 256.
pub open spec fn wadd8(x: u8, y: u8) -> u8 {
    if x + y > 255 {
        (x + y - 256) as u8
    } else {
        (x + y) as u8
    }
}

/// 8-bit subtraction modulo 256.
pub open spec fn wsub8(x: u8, y: u8) -> u8 {
    if x - y < 0 {
        (x - y + 256) as u8
    } else {
        (x - y) as u8
    }
}

/// 16-bit addition modulo 65536.
pub open spec fn wadd16(x: u16, y: u16) -> u16 {
    if x + y > 0xFFFF {
        (x + y - 0x10000) as u16
    } else {
        (x + y) as u16
    }
}

/// 16-bit subtraction modulo 65536.
pub open spec fn wsub16(x: u16, y: u16) -> u16 {
    if x - y < 0 {
        (x - y + 0x10000) as u16
    } else {
        (x - y) as u16
    }
}

/// Compose two bytes into a 16-bit value, `hi` in bits 15..8, `lo` in bits 7..0.
pub open spec fn pair(hi: u8, lo: u8) -> u16 {
    (hi * 256 + lo) as u16
}

/// High byte of a 16-bit value.
pub open spec fn hi8(v: u16) -> u8 {
    (v / 256) as u8
}

/// Low byte of a 16-bit value.
pub open spec fn lo8(v: u16) -> u8 {
    (v % 256) as u8
}

/// Splitting a 16-bit value into bytes and recomposing it is the identity.
pub proof fn lemma_pair_split(v: u16)
    ensures
        pair(hi8(v), lo8(v)) == v,
{
}

/// A signed 8-bit displacement widened to 16 bits (two's complement).
pub open spec fn sign_ext(d: u8) -> u16 {
    if d < 128 {
        d as u16
    } else {
        (d + 0xFF00) as u16
    }
}

/// Executable sign extension of an 8-bit displacement to 16 bits.
pub fn sign_extend(d: u8) -> (r: u16)
    ensures
        r == sign_ext(d),
{
    if d < 128 {
        d as u16
    } else {
        d as u16 + 0xFF00
    }
}

} // verus!
