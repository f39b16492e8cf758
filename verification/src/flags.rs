//! The CPU flag register F: a packed byte whose upper nibble holds the four
//! flags Z (bit 7, zero), N (bit 6, subtraction), H (bit 5, half-carry) and
//! C (bit 4, carry). The low nibble is always zero.

use vstd::prelude::*;

verus! {

/// Carry flag bit.
pub const FLAG_C: u8 = 0x10;
/// Half-carry flag bit.
pub const FLAG_H: u8 = 0x20;
/// Subtraction flag bit.
pub const FLAG_N: u8 = 0x40;
/// Zero flag bit.
pub const FLAG_Z: u8 = 0x80;

/// The zero flag of a packed flag byte.
pub open spec fn flag_z(f: u8) -> bool {
    f / 0x80 % 2 == 1
}

/// The subtraction flag of a packed flag byte.
pub open spec fn flag_n(f: u8) -> bool {
    f / 0x40 % 2 == 1
}

/// The half-carry flag of a packed flag byte.
pub open spec fn flag_h(f: u8) -> bool {
    f / 0x20 % 2 == 1
}

/// The carry flag of a packed flag byte.
pub open spec fn flag_c(f: u8) -> bool {
    f / 0x10 % 2 == 1
}

/// The packed flag byte with the given four flags and a zero low nibble.
pub open spec fn flags_byte(z: bool, n: bool, h: bool, c: bool) -> u8 {
    ((if z { 0x80int } else { 0int }) + (if n { 0x40int } else { 0int })
        + (if h { 0x20int } else { 0int }) + (if c { 0x10int } else { 0int })) as u8
}

/// A well-formed flag byte has a zero low nibble.
pub open spec fn flags_wf(f: u8) -> bool {
    f % 16 == 0
}

/// Packing four flags gives a well-formed byte, and each flag reads back.
pub proof fn lemma_flags_byte_props(z: bool, n: bool, h: bool, c: bool)
    ensures
        flags_wf(flags_byte(z, n, h, c)),
        flag_z(flags_byte(z, n, h, c)) == z,
        flag_n(flags_byte(z, n, h, c)) == n,
        flag_h(flags_byte(z, n, h, c)) == h,
        flag_c(flags_byte(z, n, h, c)) == c,
{
}

/// A well-formed flag byte has `F & 0x0F == 0`, in the bit-mask reading.
pub proof fn lemma_flags_low_nibble_clear(f: u8)
    requires
        flags_wf(f),
    ensures
        f & 0x0F == 0,
{
    assert(f % 16 == 0 ==> f & 0x0F == 0) by (bit_vector);
}

/// Builds the packed flag byte for the given four flags.
pub fn make_flags(z: bool, n: bool, h: bool, c: bool) -> (f: u8)
    ensures
        f == flags_byte(z, n, h, c),
        flags_wf(f),
        flag_z(f) == z,
        flag_n(f) == n,
        flag_h(f) == h,
        flag_c(f) == c,
{
    proof {
        lemma_flags_byte_props(z, n, h, c);
    }
    let mut f: u8 = 0;
    if z {
        f = f + FLAG_Z;
    }
    if n {
        f = f + FLAG_N;
    }
    if h {
        f = f + FLAG_H;
    }
    if c {
        f = f + FLAG_C;
    }
    f
}

} // verus!
