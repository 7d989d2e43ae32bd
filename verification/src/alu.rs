use vstd::prelude::*;

use crate::flags::CpuFlag;

verus! {

// Arithmetic and logic helpers of the processor. Each operation is stated as
// a spec function over plain integers, and the executable function returns
// exactly the specified value and flags.

/// 8-bit addition with optional carry-in: Z from the result, N clear,
/// H when the low nibbles (plus carry-in) overflow past 15, C on overflow
/// past 255.
pub open spec fn spec_add8(a: u8, b: u8, cin: bool) -> (u8, CpuFlag) {
    let c: int = if cin {
        1
    } else {
        0
    };
    let total: int = a + b + c;
    let r = (total % 256) as u8;
    (
        r,
        CpuFlag {
            zero: r == 0,
            subtraction: false,
            half_carry: a % 16 + b % 16 + c > 15,
            carry: total > 255,
        },
    )
}

pub fn add8(a: u8, b: u8, cin: bool) -> (r: (u8, CpuFlag))
    ensures
        r == spec_add8(a, b, cin),
{
    let c: u16 = if cin {
        1
    } else {
        0
    };
    let total: u16 = a as u16 + b as u16 + c;
    let v: u8 = (total % 256) as u8;
    let f = CpuFlag {
        zero: v == 0,
        subtraction: false,
        half_carry: a % 16 + b % 16 + c as u8 > 15,
        carry: total > 255,
    };
    (v, f)
}

/// 8-bit subtraction with optional borrow-in: Z from the result, N set,
/// H when the low nibble borrows, C when the whole byte borrows.
pub open spec fn spec_sub8(a: u8, b: u8, cin: bool) -> (u8, CpuFlag) {
    let c: int = if cin {
        1
    } else {
        0
    };
    let r = ((a + 256 - b - c) % 256) as u8;
    (
        r,
        CpuFlag {
            zero: r == 0,
            subtraction: true,
            half_carry: a % 16 < b % 16 + c,
            carry: a < b + c,
        },
    )
}

pub fn sub8(a: u8, b: u8, cin: bool) -> (r: (u8, CpuFlag))
    ensures
        r == spec_sub8(a, b, cin),
{
    let c: u16 = if cin {
        1
    } else {
        0
    };
    let total: u16 = a as u16 + 256 - b as u16 - c;
    let v: u8 = (total % 256) as u8;
    let f = CpuFlag {
        zero: v == 0,
        subtraction: true,
        half_carry: ((a % 16) as u16) < ((b % 16) as u16) + c,
        carry: (a as u16) < (b as u16) + c,
    };
    (v, f)
}

/// Bitwise AND: Z from the result, N clear, H set, C clear.
pub open spec fn spec_and8(a: u8, b: u8) -> (u8, CpuFlag) {
    let r = a & b;
    (r, CpuFlag { zero: r == 0, subtraction: false, half_carry: true, carry: false })
}

pub fn and8(a: u8, b: u8) -> (r: (u8, CpuFlag))
    ensures
        r == spec_and8(a, b),
{
    let v = a & b;
    (v, CpuFlag { zero: v == 0, subtraction: false, half_carry: true, carry: false })
}

/// Bitwise OR: Z from the result, N, H and C clear.
pub open spec fn spec_or8(a: u8, b: u8) -> (u8, CpuFlag) {
    let r = a | b;
    (r, CpuFlag { zero: r == 0, subtraction: false, half_carry: false, carry: false })
}

pub fn or8(a: u8, b: u8) -> (r: (u8, CpuFlag))
    ensures
        r == spec_or8(a, b),
{
    let v = a | b;
    (v, CpuFlag { zero: v == 0, subtraction: false, half_carry: false, carry: false })
}

/// Bitwise XOR: Z from the result, N, H and C clear.
pub open spec fn spec_xor8(a: u8, b: u8) -> (u8, CpuFlag) {
    let r = a ^ b;
    (r, CpuFlag { zero: r == 0, subtraction: false, half_carry: false, carry: false })
}

pub fn xor8(a: u8, b: u8) -> (r: (u8, CpuFlag))
    ensures
        r == spec_xor8(a, b),
{
    let v = a ^ b;
    (v, CpuFlag { zero: v == 0, subtraction: false, half_carry: false, carry: false })
}

/// 8-bit increment: Z from the result, N clear, H when the low nibble was 15,
/// C preserved.
pub open spec fn spec_inc8(a: u8, f: CpuFlag) -> (u8, CpuFlag) {
    let r = ((a + 1) % 256) as u8;
    (
        r,
        CpuFlag { zero: r == 0, subtraction: false, half_carry: a % 16 == 15, carry: f.carry },
    )
}

pub fn inc8(a: u8, f: CpuFlag) -> (r: (u8, CpuFlag))
    ensures
        r == spec_inc8(a, f),
{
    let v: u8 = ((a as u16 + 1) % 256) as u8;
    (
        v,
        CpuFlag { zero: v == 0, subtraction: false, half_carry: a % 16 == 15, carry: f.carry },
    )
}

/// 8-bit decrement: Z from the result, N set, H when the low nibble borrows,
/// C preserved.
pub open spec fn spec_dec8(a: u8, f: CpuFlag) -> (u8, CpuFlag) {
    let r = ((a + 255) % 256) as u8;
    (r, CpuFlag { zero: r == 0, subtraction: true, half_carry: a % 16 == 0, carry: f.carry })
}

pub fn dec8(a: u8, f: CpuFlag) -> (r: (u8, CpuFlag))
    ensures
        r == spec_dec8(a, f),
{
    let v: u8 = ((a as u16 + 255) % 256) as u8;
    (v, CpuFlag { zero: v == 0, subtraction: true, half_carry: a % 16 == 0, carry: f.carry })
}

/// Decimal adjust after an addition or subtraction, following the N flag:
/// adds or subtracts 0x06 and 0x60 as dictated by H, C and the digit ranges;
/// Z reflects the final value, H is cleared, C is set when a decimal carry
/// out of the high digit occurred (and kept as-is after subtraction).
pub open spec fn spec_daa(a: u8, f: CpuFlag) -> (u8, CpuFlag) {
    if f.subtraction {
        let adj: int = (if f.half_carry {
            6int
        } else {
            0
        }) + (if f.carry {
            0x60int
        } else {
            0
        });
        let r = ((a + 256 - adj) % 256) as u8;
        (
            r,
            CpuFlag { zero: r == 0, subtraction: true, half_carry: false, carry: f.carry },
        )
    } else {
        let low = f.half_carry || a % 16 > 9;
        let high = f.carry || a > 0x99;
        let adj: int = (if low {
            6int
        } else {
            0
        }) + (if high {
            0x60int
        } else {
            0
        });
        let r = ((a + adj) % 256) as u8;
        (
            r,
            CpuFlag {
                zero: r == 0,
                subtraction: false,
                half_carry: false,
                carry: f.carry || high,
            },
        )
    }
}

pub fn daa(a: u8, f: CpuFlag) -> (r: (u8, CpuFlag))
    ensures
        r == spec_daa(a, f),
{
    if f.subtraction {
        let adj: u16 = (if f.half_carry {
            6
        } else {
            0
        }) + (if f.carry {
            0x60u16
        } else {
            0
        });
        let v: u8 = ((a as u16 + 256 - adj) % 256) as u8;
        (v, CpuFlag { zero: v == 0, subtraction: true, half_carry: false, carry: f.carry })
    } else {
        let low = f.half_carry || a % 16 > 9;
        let high = f.carry || a > 0x99;
        let adj: u16 = (if low {
            6
        } else {
            0
        }) + (if high {
            0x60u16
        } else {
            0
        });
        let v: u8 = ((a as u16 + adj) % 256) as u8;
        (
            v,
            CpuFlag {
                zero: v == 0,
                subtraction: false,
                half_carry: false,
                carry: f.carry || high,
            },
        )
    }
}

/// 16-bit addition (ADD HL, r16): Z preserved, N clear, H from bit 11,
/// C from bit 15.
pub open spec fn spec_add16(a: u16, b: u16, f: CpuFlag) -> (u16, CpuFlag) {
    let total: int = a + b;
    let r = (total % 65536) as u16;
    (
        r,
        CpuFlag {
            zero: f.zero,
            subtraction: false,
            half_carry: a % 4096 + b % 4096 > 4095,
            carry: total > 65535,
        },
    )
}

pub fn add16(a: u16, b: u16, f: CpuFlag) -> (r: (u16, CpuFlag))
    ensures
        r == spec_add16(a, b, f),
{
    let total: u32 = a as u32 + b as u32;
    let v: u16 = (total % 65536) as u16;
    (
        v,
        CpuFlag {
            zero: f.zero,
            subtraction: false,
            half_carry: a % 4096 + b % 4096 > 4095,
            carry: total > 65535,
        },
    )
}

/// The signed interpretation of an 8-bit immediate.
pub open spec fn spec_signed(e: u8) -> int {
    if e < 128 {
        e as int
    } else {
        e - 256
    }
}

/// ADD SP, e8 and LD HL, SP+e8: the result is SP plus the sign-extended
/// immediate; Z and N are clear, H and C mirror the unsigned addition of
/// SP's low byte with the immediate.
pub open spec fn spec_add_sp_e8(sp: u16, e: u8) -> (u16, CpuFlag) {
    let r = ((sp + spec_signed(e) + 65536) % 65536) as u16;
    (
        r,
        CpuFlag {
            zero: false,
            subtraction: false,
            half_carry: sp % 16 + e % 16 > 15,
            carry: sp % 256 + e > 255,
        },
    )
}

pub fn add_sp_e8(sp: u16, e: u8) -> (r: (u16, CpuFlag))
    ensures
        r == spec_add_sp_e8(sp, e),
{
    let v: u16 = if e < 128 {
        sp.wrapping_add(e as u16)
    } else {
        sp.wrapping_sub(256 - e as u16)
    };
    (
        v,
        CpuFlag {
            zero: false,
            subtraction: false,
            half_carry: sp % 16 + (e % 16) as u16 > 15,
            carry: sp % 256 + e as u16 > 255,
        },
    )
}

/// Rotate left circular: bit 7 moves to bit 0 and into C.
pub open spec fn spec_rlc_val(x: u8) -> u8 {
    ((x % 128) * 2 + x / 128) as u8
}

/// Rotate right circular: bit 0 moves to bit 7 and into C.
pub open spec fn spec_rrc_val(x: u8) -> u8 {
    (x / 2 + (x % 2) * 128) as u8
}

/// Flags of the prefixed rotate/shift/swap forms: Z from the result,
/// N and H clear, C as given.
pub open spec fn spec_shift_flags(r: u8, carry: bool) -> CpuFlag {
    CpuFlag { zero: r == 0, subtraction: false, half_carry: false, carry }
}

pub open spec fn spec_rlc(x: u8) -> (u8, CpuFlag) {
    (spec_rlc_val(x), spec_shift_flags(spec_rlc_val(x), x >= 128))
}

pub fn rlc(x: u8) -> (r: (u8, CpuFlag))
    ensures
        r == spec_rlc(x),
{
    let v: u8 = (x % 128) * 2 + x / 128;
    (v, CpuFlag { zero: v == 0, subtraction: false, half_carry: false, carry: x >= 128 })
}

pub open spec fn spec_rrc(x: u8) -> (u8, CpuFlag) {
    (spec_rrc_val(x), spec_shift_flags(spec_rrc_val(x), x % 2 == 1))
}

pub fn rrc(x: u8) -> (r: (u8, CpuFlag))
    ensures
        r == spec_rrc(x),
{
    let v: u8 = x / 2 + (x % 2) * 128;
    (v, CpuFlag { zero: v == 0, subtraction: false, half_carry: false, carry: x % 2 == 1 })
}

/// Rotate left through carry: C moves into bit 0, bit 7 into C.
pub open spec fn spec_rl(x: u8, cin: bool) -> (u8, CpuFlag) {
    let r = ((x % 128) * 2 + if cin {
        1int
    } else {
        0
    }) as u8;
    (r, spec_shift_flags(r, x >= 128))
}

pub fn rl(x: u8, cin: bool) -> (r: (u8, CpuFlag))
    ensures
        r == spec_rl(x, cin),
{
    let v: u8 = (x % 128) * 2 + if cin {
        1
    } else {
        0
    };
    (v, CpuFlag { zero: v == 0, subtraction: false, half_carry: false, carry: x >= 128 })
}

/// Rotate right through carry: C moves into bit 7, bit 0 into C.
pub open spec fn spec_rr(x: u8, cin: bool) -> (u8, CpuFlag) {
    let r = (x / 2 + if cin {
        128int
    } else {
        0
    }) as u8;
    (r, spec_shift_flags(r, x % 2 == 1))
}

pub fn rr(x: u8, cin: bool) -> (r: (u8, CpuFlag))
    ensures
        r == spec_rr(x, cin),
{
    let v: u8 = x / 2 + if cin {
        128
    } else {
        0
    };
    (v, CpuFlag { zero: v == 0, subtraction: false, half_carry: false, carry: x % 2 == 1 })
}

/// Shift left arithmetic: bit 7 into C, bit 0 becomes 0.
pub open spec fn spec_sla(x: u8) -> (u8, CpuFlag) {
    let r = ((x % 128) * 2) as u8;
    (r, spec_shift_flags(r, x >= 128))
}

pub fn sla(x: u8) -> (r: (u8, CpuFlag))
    ensures
        r == spec_sla(x),
{
    let v: u8 = (x % 128) * 2;
    (v, CpuFlag { zero: v == 0, subtraction: false, half_carry: false, carry: x >= 128 })
}

/// Shift right arithmetic: bit 0 into C, bit 7 kept.
pub open spec fn spec_sra(x: u8) -> (u8, CpuFlag) {
    let r = (x / 2 + (x / 128) * 128) as u8;
    (r, spec_shift_flags(r, x % 2 == 1))
}

pub fn sra(x: u8) -> (r: (u8, CpuFlag))
    ensures
        r == spec_sra(x),
{
    let v: u8 = x / 2 + (x / 128) * 128;
    (v, CpuFlag { zero: v == 0, subtraction: false, half_carry: false, carry: x % 2 == 1 })
}

/// Shift right logical: bit 0 into C, bit 7 becomes 0.
pub open spec fn spec_srl(x: u8) -> (u8, CpuFlag) {
    (x / 2, spec_shift_flags(x / 2, x % 2 == 1))
}

pub fn srl(x: u8) -> (r: (u8, CpuFlag))
    ensures
        r == spec_srl(x),
{
    let v: u8 = x / 2;
    (v, CpuFlag { zero: v == 0, subtraction: false, half_carry: false, carry: x % 2 == 1 })
}

/// Swap the two nibbles: Z from the result, N, H and C clear.
pub open spec fn spec_swap_val(x: u8) -> u8 {
    ((x % 16) * 16 + x / 16) as u8
}

pub open spec fn spec_swap(x: u8) -> (u8, CpuFlag) {
    (spec_swap_val(x), spec_shift_flags(spec_swap_val(x), false))
}

pub fn swap(x: u8) -> (r: (u8, CpuFlag))
    ensures
        r == spec_swap(x),
{
    let v: u8 = (x % 16) * 16 + x / 16;
    (v, CpuFlag { zero: v == 0, subtraction: false, half_carry: false, carry: false })
}

/// The power of two selecting bit `b` of a byte.
pub open spec fn spec_pow2_8(b: u8) -> int {
    if b == 0 {
        1
    } else if b == 1 {
        2
    } else if b == 2 {
        4
    } else if b == 3 {
        8
    } else if b == 4 {
        16
    } else if b == 5 {
        32
    } else if b == 6 {
        64
    } else {
        128
    }
}

/// Whether bit `b` (0 to 7) of `x` is set.
pub open spec fn spec_bit8(x: u8, b: u8) -> bool {
    (x as int) / spec_pow2_8(b) % 2 == 1
}

pub fn pow2_8(b: u8) -> (r: u8)
    requires
        b < 8,
    ensures
        r == spec_pow2_8(b),
{
    match b {
        0 => 1,
        1 => 2,
        2 => 4,
        3 => 8,
        4 => 16,
        5 => 32,
        6 => 64,
        _ => 128,
    }
}

/// BIT b, r8: Z when the tested bit is clear, N clear, H set, C preserved.
pub open spec fn spec_bit_test(x: u8, b: u8, f: CpuFlag) -> CpuFlag {
    CpuFlag {
        zero: !spec_bit8(x, b),
        subtraction: false,
        half_carry: true,
        carry: f.carry,
    }
}

pub fn bit_test(x: u8, b: u8, f: CpuFlag) -> (r: CpuFlag)
    requires
        b < 8,
    ensures
        r == spec_bit_test(x, b, f),
{
    let p = pow2_8(b);
    CpuFlag {
        zero: x / p % 2 == 0,
        subtraction: false,
        half_carry: true,
        carry: f.carry,
    }
}

/// RES b, r8: the value with bit `b` cleared; flags untouched.
pub open spec fn spec_res(x: u8, b: u8) -> u8 {
    if spec_bit8(x, b) {
        (x - spec_pow2_8(b)) as u8
    } else {
        x
    }
}

pub fn res_bit(x: u8, b: u8) -> (r: u8)
    requires
        b < 8,
    ensures
        r == spec_res(x, b),
{
    let p = pow2_8(b);
    if x / p % 2 == 1 {
        x - p
    } else {
        x
    }
}

/// SET b, r8: the value with bit `b` set; flags untouched.
pub open spec fn spec_set(x: u8, b: u8) -> u8 {
    if spec_bit8(x, b) {
        x
    } else {
        (x + spec_pow2_8(b)) as u8
    }
}

pub fn set_bit(x: u8, b: u8) -> (r: u8)
    requires
        b < 8,
    ensures
        r == spec_set(x, b),
{
    let p = pow2_8(b);
    if x / p % 2 == 1 {
        x
    } else {
        proof {
            if b == 0 {
                assert(x / 1 % 2 == 0 ==> x + 1 < 256);
            } else if b == 1 {
                assert(x / 2 % 2 == 0 ==> x + 2 < 256);
            } else if b == 2 {
                assert(x / 4 % 2 == 0 ==> x + 4 < 256);
            } else if b == 3 {
                assert(x / 8 % 2 == 0 ==> x + 8 < 256);
            } else if b == 4 {
                assert(x / 16 % 2 == 0 ==> x + 16 < 256);
            } else if b == 5 {
                assert(x / 32 % 2 == 0 ==> x + 32 < 256);
            } else if b == 6 {
                assert(x / 64 % 2 == 0 ==> x + 64 < 256);
            } else {
                assert(x / 128 % 2 == 0 ==> x + 128 < 256);
            }
        }
        x + p
    }
}

/// The decimal value of a binary-coded-decimal byte.
pub open spec fn spec_bcd_value(x: u8) -> int {
    (x / 16) * 10 + x % 16
}

/// Iterated left circular rotation of a byte.
pub open spec fn spec_rlc_iter(x: u8, n: nat) -> u8
    decreases n,
{
    if n == 0 {
        x
    } else {
        spec_rlc_val(spec_rlc_iter(x, (n - 1) as nat))
    }
}

} // verus!
