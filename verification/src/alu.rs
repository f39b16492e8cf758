//! Arithmetic and logic of the 8-bit CPU core: additions with carry and
//! half-carry, subtractions with borrow, BCD adjustment, rotates, shifts and
//! single-bit operations. Every operation is specified as plain modular
//! arithmetic and proved against that statement.

use vstd::prelude::*;

use crate::flags::flag_c;
use crate::flags::flag_h;
use crate::flags::flag_n;
use crate::flags::flag_z;
use crate::flags::flags_byte;
use crate::flags::make_flags;

verus! {

/// Result of an 8-bit addition `a + b + carry-in`, modulo 256.
pub open spec fn add8_val(a: u8, b: u8, cin: bool) -> u8 {
    ((a + b + (if cin { 1int } else { 0int })) % 256) as u8
}

/// Flags after an 8-bit addition: Z per result, N=0, H from the low-nibble
/// sum, C from the full sum.
pub open spec fn add8_flags(a: u8, b: u8, cin: bool) -> u8 {
    let ci = if cin { 1int } else { 0int };
    flags_byte(
        (a + b + ci) % 256 == 0,
        false,
        a % 16 + b % 16 + ci > 15,
        a + b + ci > 255,
    )
}

/// Result of an 8-bit subtraction `a - b - carry-in`, modulo 256.
pub open spec fn sub8_val(a: u8, b: u8, cin: bool) -> u8 {
    ((a - b - (if cin { 1int } else { 0int }) + 256) % 256) as u8
}

/// Flags after an 8-bit subtraction: Z per result, N=1, H from the
/// low-nibble borrow, C from the full borrow.
pub open spec fn sub8_flags(a: u8, b: u8, cin: bool) -> u8 {
    let ci = if cin { 1int } else { 0int };
    flags_byte(
        (a - b - ci + 256) % 256 == 0,
        true,
        a % 16 < b % 16 + ci,
        a < b + ci,
    )
}

/// Flags after AND: Z per result, N=0, H=1, C=0.
pub open spec fn and8_flags(a: u8, b: u8) -> u8 {
    flags_byte((a & b) == 0, false, true, false)
}

/// Flags after OR: Z per result, N=0, H=0, C=0.
pub open spec fn or8_flags(a: u8, b: u8) -> u8 {
    flags_byte((a | b) == 0, false, false, false)
}

/// Flags after XOR: Z per result, N=0, H=0, C=0.
pub open spec fn xor8_flags(a: u8, b: u8) -> u8 {
    flags_byte((a ^ b) == 0, false, false, false)
}

/// Result of INC r: the value plus one, modulo 256.
pub open spec fn inc8_val(v: u8) -> u8 {
    ((v + 1) % 256) as u8
}

/// Flags after INC r: Z per result, N=0, H on low-nibble overflow, C kept.
pub open spec fn inc8_flags(v: u8, f: u8) -> u8 {
    flags_byte((v + 1) % 256 == 0, false, v % 16 == 15, flag_c(f))
}

/// Result of DEC r: the value minus one, modulo 256.
pub open spec fn dec8_val(v: u8) -> u8 {
    ((v - 1 + 256) % 256) as u8
}

/// Flags after DEC r: Z per result, N=1, H on low-nibble borrow, C kept.
pub open spec fn dec8_flags(v: u8, f: u8) -> u8 {
    flags_byte((v - 1 + 256) % 256 == 0, true, v % 16 == 0, flag_c(f))
}

/// 8-bit addition with optional carry-in; returns the value and the flags.
pub fn alu_add8(a: u8, b: u8, cin: bool) -> (r: (u8, u8))
    ensures
        r.0 == add8_val(a, b, cin),
        r.1 == add8_flags(a, b, cin),
{
    let ci: u16 = if cin { 1 } else { 0 };
    let sum: u16 = a as u16 + b as u16 + ci;
    let res: u8 = (sum % 256) as u8;
    let half: bool = (a % 16) as u16 + (b % 16) as u16 + ci > 15;
    let carry: bool = sum > 255;
    let f = make_flags(res == 0, false, half, carry);
    (res, f)
}

/// 8-bit subtraction with optional borrow-in; returns the value and the flags.
pub fn alu_sub8(a: u8, b: u8, cin: bool) -> (r: (u8, u8))
    ensures
        r.0 == sub8_val(a, b, cin),
        r.1 == sub8_flags(a, b, cin),
{
    let ci: u16 = if cin { 1 } else { 0 };
    let diff: u16 = (a as u16 + 256) - (b as u16 + ci);
    let res: u8 = (diff % 256) as u8;
    let a_lo: u16 = (a % 16) as u16;
    let b_lo: u16 = (b % 16) as u16 + ci;
    let half: bool = a_lo < b_lo;
    let a_w: u16 = a as u16;
    let b_w: u16 = b as u16 + ci;
    let carry: bool = a_w < b_w;
    let f = make_flags(res == 0, true, half, carry);
    (res, f)
}

/// Bitwise AND; returns the value and the flags.
pub fn alu_and8(a: u8, b: u8) -> (r: (u8, u8))
    ensures
        r.0 == (a & b),
        r.1 == and8_flags(a, b),
{
    let res: u8 = a & b;
    let f = make_flags(res == 0, false, true, false);
    (res, f)
}

/// Bitwise OR; returns the value and the flags.
pub fn alu_or8(a: u8, b: u8) -> (r: (u8, u8))
    ensures
        r.0 == (a | b),
        r.1 == or8_flags(a, b),
{
    let res: u8 = a | b;
    let f = make_flags(res == 0, false, false, false);
    (res, f)
}

/// Bitwise XOR; returns the value and the flags.
pub fn alu_xor8(a: u8, b: u8) -> (r: (u8, u8))
    ensures
        r.0 == (a ^ b),
        r.1 == xor8_flags(a, b),
{
    let res: u8 = a ^ b;
    let f = make_flags(res == 0, false, false, false);
    (res, f)
}

/// INC r; carries the old flag byte through for the preserved C flag.
pub fn alu_inc8(v: u8, f_old: u8) -> (r: (u8, u8))
    ensures
        r.0 == inc8_val(v),
        r.1 == inc8_flags(v, f_old),
{
    let sum: u16 = v as u16 + 1;
    let res: u8 = (sum % 256) as u8;
    let carry = f_old / 0x10 % 2 == 1;
    let f = make_flags(res == 0, false, v % 16 == 15, carry);
    (res, f)
}

/// DEC r; carries the old flag byte through for the preserved C flag.
pub fn alu_dec8(v: u8, f_old: u8) -> (r: (u8, u8))
    ensures
        r.0 == dec8_val(v),
        r.1 == dec8_flags(v, f_old),
{
    let diff: u16 = (v as u16 + 256) - 1;
    let res: u8 = (diff % 256) as u8;
    let carry = f_old / 0x10 % 2 == 1;
    let f = make_flags(res == 0, true, v % 16 == 0, carry);
    (res, f)
}

/// A 16-bit value reduced modulo 2^16.
pub open spec fn wrap16(x: int) -> u16 {
    (x % 0x10000) as u16
}

/// Result of ADD HL,rr: the 16-bit sum modulo 2^16.
pub open spec fn add16_val(x: u16, y: u16) -> u16 {
    ((x + y) % 0x10000) as u16
}

/// Flags after ADD HL,rr: Z kept, N=0, H from bit 11, C from bit 15.
pub open spec fn add16_flags(x: u16, y: u16, f: u8) -> u8 {
    flags_byte(flag_z(f), false, x % 0x1000 + y % 0x1000 > 0xFFF, x + y > 0xFFFF)
}

/// The signed value of an offset byte: two's complement in -128..=127.
pub open spec fn signed_val(n: u8) -> int {
    if n < 128 {
        n as int
    } else {
        n - 256
    }
}

/// Result of adding a signed offset byte to a 16-bit value, modulo 2^16.
pub open spec fn addsp_val(sp: u16, n: u8) -> u16 {
    wrap16(sp + signed_val(n))
}

/// Flags after ADD SP,r8 and LD HL,SP+r8: Z=0, N=0, H and C from the
/// unsigned low-byte sum of SP and the offset byte.
pub open spec fn addsp_flags(sp: u16, n: u8) -> u8 {
    flags_byte(false, false, sp % 16 + n % 16 > 15, sp % 256 + n > 255)
}

/// 16-bit addition for ADD HL,rr; returns the value and the flags.
pub fn alu_add16(x: u16, y: u16, f_old: u8) -> (r: (u16, u8))
    ensures
        r.0 == add16_val(x, y),
        r.1 == add16_flags(x, y, f_old),
{
    let sum: u32 = x as u32 + y as u32;
    let res: u16 = (sum % 0x10000) as u16;
    let half: bool = (x % 0x1000) as u32 + (y % 0x1000) as u32 > 0xFFF;
    let carry: bool = sum > 0xFFFF;
    let zf = f_old / 0x80 % 2 == 1;
    let f = make_flags(zf, false, half, carry);
    (res, f)
}

/// Adds the signed offset byte `n` to a 16-bit value, wrapping modulo 2^16;
/// returns the value and the ADD SP,r8 flags.
pub fn alu_addsp(sp: u16, n: u8) -> (r: (u16, u8))
    ensures
        r.0 == addsp_val(sp, n),
        r.1 == addsp_flags(sp, n),
{
    let base: u32 = sp as u32 + n as u32;
    let adjusted: u32 = if n >= 128 {
        base + 0x10000 - 256
    } else {
        base
    };
    let res: u16 = (adjusted % 0x10000) as u16;
    proof {
        if n >= 128 {
            assert((sp + n + 0x10000 - 256) % 0x10000 == (sp + n - 256) % 0x10000) by {
                vstd::arithmetic::div_mod::lemma_mod_add_multiples_vanish(
                    sp + n - 256,
                    0x10000,
                );
            }
        }
    }
    let half: bool = sp % 16 + (n % 16) as u16 > 15;
    let carry: bool = sp % 256 + n as u16 > 255;
    let f = make_flags(false, false, half, carry);
    (res, f)
}

/// The target of a relative jump: the signed offset byte added to the
/// program counter, wrapping modulo 2^16.
pub fn rel_target(pc: u16, off: u8) -> (r: u16)
    ensures
        r == wrap16(pc + signed_val(off)),
{
    if off < 128 {
        pc.wrapping_add(off as u16)
    } else {
        let t = pc.wrapping_add(off as u16);
        let r = t.wrapping_sub(256);
        proof {
            vstd::arithmetic::div_mod::lemma_mod_add_multiples_vanish(pc + off - 256, 0x10000);
        }
        r
    }
}

/// Result of a left rotate: bit 7 moves into bit 0.
pub open spec fn rlc_val(v: u8) -> u8 {
    ((v * 2) % 256 + v / 128) as u8
}

/// Carry out of a left rotate or shift: the old bit 7.
pub open spec fn rlc_carry(v: u8) -> bool {
    v >= 128
}

/// Result of a right rotate: bit 0 moves into bit 7.
pub open spec fn rrc_val(v: u8) -> u8 {
    (v / 2 + (v % 2) * 128) as u8
}

/// Carry out of a right rotate or shift: the old bit 0.
pub open spec fn rrc_carry(v: u8) -> bool {
    v % 2 == 1
}

/// Result of a left rotate through carry: carry-in moves into bit 0.
pub open spec fn rl_val(v: u8, cin: bool) -> u8 {
    ((v * 2) % 256 + (if cin { 1int } else { 0int })) as u8
}

/// Result of a right rotate through carry: carry-in moves into bit 7.
pub open spec fn rr_val(v: u8, cin: bool) -> u8 {
    (v / 2 + (if cin { 128int } else { 0int })) as u8
}

/// Result of an arithmetic left shift: a zero moves into bit 0.
pub open spec fn sla_val(v: u8) -> u8 {
    ((v * 2) % 256) as u8
}

/// Result of an arithmetic right shift: bit 7 is kept.
pub open spec fn sra_val(v: u8) -> u8 {
    (v / 2 + (v / 128) * 128) as u8
}

/// Result of a logical right shift: a zero moves into bit 7.
pub open spec fn srl_val(v: u8) -> u8 {
    v / 2
}

/// Result of SWAP: the two nibbles exchanged.
pub open spec fn swap_val(v: u8) -> u8 {
    ((v % 16) * 16 + v / 16) as u8
}

/// Left rotate; returns the value and the rotated-out bit.
pub fn alu_rlc(v: u8) -> (r: (u8, bool))
    ensures
        r.0 == rlc_val(v),
        r.1 == rlc_carry(v),
{
    let doubled: u16 = v as u16 * 2;
    let res: u8 = (doubled % 256) as u8 + v / 128;
    (res, v >= 128)
}

/// Right rotate; returns the value and the rotated-out bit.
pub fn alu_rrc(v: u8) -> (r: (u8, bool))
    ensures
        r.0 == rrc_val(v),
        r.1 == rrc_carry(v),
{
    let res: u8 = v / 2 + (v % 2) * 128;
    (res, v % 2 == 1)
}

/// Left rotate through carry; returns the value and the rotated-out bit.
pub fn alu_rl(v: u8, cin: bool) -> (r: (u8, bool))
    ensures
        r.0 == rl_val(v, cin),
        r.1 == rlc_carry(v),
{
    let doubled: u16 = v as u16 * 2;
    let res: u8 = (doubled % 256) as u8 + (if cin { 1 } else { 0 });
    (res, v >= 128)
}

/// Right rotate through carry; returns the value and the rotated-out bit.
pub fn alu_rr(v: u8, cin: bool) -> (r: (u8, bool))
    ensures
        r.0 == rr_val(v, cin),
        r.1 == rrc_carry(v),
{
    let res: u8 = v / 2 + (if cin { 128 } else { 0 });
    (res, v % 2 == 1)
}

/// Arithmetic left shift; returns the value and the shifted-out bit.
pub fn alu_sla(v: u8) -> (r: (u8, bool))
    ensures
        r.0 == sla_val(v),
        r.1 == rlc_carry(v),
{
    let doubled: u16 = v as u16 * 2;
    ((doubled % 256) as u8, v >= 128)
}

/// Arithmetic right shift; returns the value and the shifted-out bit.
pub fn alu_sra(v: u8) -> (r: (u8, bool))
    ensures
        r.0 == sra_val(v),
        r.1 == rrc_carry(v),
{
    (v / 2 + (v / 128) * 128, v % 2 == 1)
}

/// Logical right shift; returns the value and the shifted-out bit.
pub fn alu_srl(v: u8) -> (r: (u8, bool))
    ensures
        r.0 == srl_val(v),
        r.1 == rrc_carry(v),
{
    (v / 2, v % 2 == 1)
}

/// Nibble swap; the carry out is always clear.
pub fn alu_swap(v: u8) -> (r: u8)
    ensures
        r == swap_val(v),
{
    (v % 16) * 16 + v / 16
}

/// The mask of bit `n`: 2^n.
pub open spec fn bit_mask_val(n: u8) -> u8 {
    if n == 0 {
        1u8
    } else if n == 1 {
        2u8
    } else if n == 2 {
        4u8
    } else if n == 3 {
        8u8
    } else if n == 4 {
        16u8
    } else if n == 5 {
        32u8
    } else if n == 6 {
        64u8
    } else {
        128u8
    }
}

/// Whether bit `n` of `v` is set.
pub open spec fn bit_test(v: u8, n: u8) -> bool {
    v / bit_mask_val(n) % 2 == 1
}

/// `v` with bit `n` cleared.
pub open spec fn bit_res_val(v: u8, n: u8) -> u8 {
    if bit_test(v, n) {
        (v - bit_mask_val(n)) as u8
    } else {
        v
    }
}

/// `v` with bit `n` set.
pub open spec fn bit_set_val(v: u8, n: u8) -> u8 {
    if bit_test(v, n) {
        v
    } else {
        (v + bit_mask_val(n)) as u8
    }
}

/// The mask of bit `n`.
pub fn bit_mask(n: u8) -> (m: u8)
    requires
        n < 8,
    ensures
        m == bit_mask_val(n),
{
    match n {
        0 => 1,
        1 => 2,
        2 => 4,
        3 => 8,
        4 => 16,
        5 => 32,
        6 => 64,
        _ => 128,
    }
}

/// Tests bit `n` of `v`.
pub fn alu_bit(v: u8, n: u8) -> (r: bool)
    requires
        n < 8,
    ensures
        r == bit_test(v, n),
{
    let m = bit_mask(n);
    v / m % 2 == 1
}

/// Clears bit `n` of `v`.
pub fn alu_res(v: u8, n: u8) -> (r: u8)
    requires
        n < 8,
    ensures
        r == bit_res_val(v, n),
{
    let m = bit_mask(n);
    if v / m % 2 == 1 {
        v - m
    } else {
        v
    }
}

/// Sets bit `n` of `v`.
pub fn alu_set(v: u8, n: u8) -> (r: u8)
    requires
        n < 8,
    ensures
        r == bit_set_val(v, n),
{
    let m = bit_mask(n);
    if v / m % 2 == 1 {
        v
    } else {
        proof {
            lemma_bit_clear_headroom(v, n);
        }
        v + m
    }
}

/// Result of DAA: the accumulator adjusted to packed BCD after an addition
/// (N=0) or a subtraction (N=1).
pub open spec fn daa_val(a: u8, f: u8) -> u8 {
    if !flag_n(f) {
        let adj = (if flag_h(f) || a % 16 > 9 { 6int } else { 0int })
            + (if flag_c(f) || a > 0x99 { 0x60int } else { 0int });
        ((a + adj) % 256) as u8
    } else {
        let adj = (if flag_h(f) { 6int } else { 0int })
            + (if flag_c(f) { 0x60int } else { 0int });
        ((a - adj + 256) % 256) as u8
    }
}

/// Flags after DAA: Z per result, N kept, H cleared, C set when the
/// high-digit adjustment fires (and never cleared).
pub open spec fn daa_flags(a: u8, f: u8) -> u8 {
    let c_new = if !flag_n(f) {
        flag_c(f) || a > 0x99
    } else {
        flag_c(f)
    };
    flags_byte(daa_val(a, f) == 0, flag_n(f), false, c_new)
}

/// BCD adjustment of the accumulator; returns the value and the flags.
pub fn alu_daa(a: u8, f: u8) -> (r: (u8, u8))
    ensures
        r.0 == daa_val(a, f),
        r.1 == daa_flags(a, f),
{
    let n_f = f / 0x40 % 2 == 1;
    let h_f = f / 0x20 % 2 == 1;
    let c_f = f / 0x10 % 2 == 1;
    if !n_f {
        let mut adj: u16 = 0;
        let mut c_new = c_f;
        if h_f || a % 16 > 9 {
            adj = adj + 6;
        }
        if c_f || a > 0x99 {
            adj = adj + 0x60;
            c_new = true;
        }
        let res: u8 = ((a as u16 + adj) % 256) as u8;
        let fl = make_flags(res == 0, false, false, c_new);
        (res, fl)
    } else {
        let mut adj: u16 = 0;
        if h_f {
            adj = adj + 6;
        }
        if c_f {
            adj = adj + 0x60;
        }
        let res: u8 = ((a as u16 + 256 - adj) % 256) as u8;
        let fl = make_flags(res == 0, true, false, c_f);
        (res, fl)
    }
}

/// XOR of a register with itself always clears the accumulator and yields
/// Z=1, N=H=C=0.
pub proof fn lemma_xor_self(a: u8)
    ensures
        (a ^ a) == 0,
        xor8_flags(a, a) == flags_byte(true, false, false, false),
{
    assert((a ^ a) == 0) by (bit_vector);
}

/// INC followed by DEC restores the value; N is 0 after the INC and 1 after
/// the DEC, and C survives both.
pub proof fn lemma_inc_then_dec(v: u8, f: u8)
    ensures
        dec8_val(inc8_val(v)) == v,
        flag_n(inc8_flags(v, f)) == false,
        flag_n(dec8_flags(inc8_val(v), inc8_flags(v, f))) == true,
        flag_c(dec8_flags(inc8_val(v), inc8_flags(v, f))) == flag_c(f),
{
    crate::flags::lemma_flags_byte_props((v + 1) % 256 == 0, false, v % 16 == 15, flag_c(f));
    let w = inc8_val(v);
    crate::flags::lemma_flags_byte_props(
        (w - 1 + 256) % 256 == 0,
        true,
        w % 16 == 0,
        flag_c(inc8_flags(v, f)),
    );
}

/// A right rotate undone by a left rotate, and the other way round.
pub proof fn lemma_rlc_of_rrc(v: u8)
    ensures
        rlc_val(rrc_val(v)) == v,
        rrc_val(rlc_val(v)) == v,
{
    let x = rrc_val(v);
    if v % 2 == 0 {
        assert(x == v / 2);
        assert(x * 2 == v);
    } else {
        assert(x == v / 2 + 128);
        assert(x * 2 == v - 1 + 256);
        assert((x * 2) % 256 == v - 1) by {
            vstd::arithmetic::div_mod::lemma_mod_add_multiples_vanish(v - 1, 256);
        }
        assert(x / 128 == 1);
    }
    let y = rlc_val(v);
    if v < 128 {
        assert(y == v * 2);
    } else {
        assert(v * 2 == (v - 128) * 2 + 256);
        assert((v * 2) % 256 == (v - 128) * 2) by {
            vstd::arithmetic::div_mod::lemma_mod_add_multiples_vanish((v - 128) * 2, 256);
        }
        assert(y == (v - 128) * 2 + 1);
    }
}

/// RL after RR restores the value exactly when the carry between the two
/// rotates is the bit that RR rotated out.
pub proof fn lemma_rl_of_rr(v: u8, cin: bool, cmid: bool)
    ensures
        (rl_val(rr_val(v, cin), cmid) == v) <==> (cmid == rrc_carry(v)),
{
    let x = rr_val(v, cin);
    assert(x == v / 2 + (if cin { 128int } else { 0int }));
    if cin {
        assert(x * 2 == v - v % 2 + 256);
        assert((x * 2) % 256 == v - v % 2) by {
            vstd::arithmetic::div_mod::lemma_mod_add_multiples_vanish(v - v % 2, 256);
        }
    } else {
        assert(x * 2 == v - v % 2);
    }
}

/// A value whose bit `n` is clear leaves room to add the bit's mask.
proof fn lemma_bit_clear_headroom(v: u8, n: u8)
    requires
        n < 8,
        !bit_test(v, n),
    ensures
        v + bit_mask_val(n) < 256,
{
    let m = bit_mask_val(n);
    assert(v / m % 2 == 0);
    if n == 0 {
        assert(v % 2 == 0);
    } else if n == 7 {
        assert(v / 128 == 0);
    } else {
        assert(v + m < 256) by (nonlinear_arith)
            requires
                v < 256,
                (m == 2 || m == 4 || m == 8 || m == 16 || m == 32 || m == 64),
                v / m % 2 == 0,
        ;
    }
}

} // verus!
