use vstd::prelude::*;

use crate::alu::{
    spec_add8, spec_bcd_value, spec_daa, spec_rlc, spec_rlc_iter, spec_rlc_val, spec_sub8,
    spec_swap_val, spec_xor8,
};
use crate::bus::{spec_bus_read, spec_bus_read16, spec_bus_write_rel, Bus};
use crate::flags::CpuFlag;

verus! {

/// Addresses whose writes land in plain RAM and read straight back: work
/// RAM, its echo, and high RAM.
pub open spec fn spec_plain_ram(addr: u16) -> bool {
    (0xc000 <= addr && addr < 0xfe00) || (0xff80 <= addr && addr < 0xffff)
}

/// Pushing a 16-bit value and popping it back restores it, and the stack
/// pointer returns to where it was: a push leaves the bus related to the old
/// one by the two byte writes at SP-1 and SP-2 with SP two lower, and a pop
/// returns the 16-bit read at the new SP while raising it by two. Stated for
/// a stack that sits in plain RAM, where a write reads straight back.
#[verifier::rlimit(100)]
#[verifier::spinoff_prover]
pub proof fn lemma_push_pop_roundtrip(b0: &Bus, b1: &Bus, b2: &Bus, sp: u16, v: u16)
    requires
        sp >= 2,
        b0.wf(),
        spec_plain_ram((sp - 1) as u16),
        spec_plain_ram((sp - 2) as u16),
        spec_bus_write_rel(b0, b1, (sp - 1) as u16, (v / 256) as u8),
        spec_bus_write_rel(b1, b2, (sp - 2) as u16, (v % 256) as u8),
    ensures
        spec_bus_read16(b2, (sp - 2) as u16) == v,
        (sp - 2 + 2) % 0x10000 == sp,
{
    reveal(spec_bus_read);
    reveal(spec_bus_write_rel);
    assert(spec_bus_read(b2, (sp - 2) as u16) == v % 256);
    assert(spec_bus_read(b2, (sp - 1) as u16) == v / 256);
}

/// Adding a value to the accumulator and then subtracting it again restores
/// the accumulator, and when the addition did not overflow the subtraction
/// borrows nothing, so C ends clear.
pub proof fn lemma_add_sub_roundtrip(a: u8, r: u8)
    ensures
        spec_sub8(spec_add8(a, r, false).0, r, false).0 == a,
        !spec_add8(a, r, false).1.carry ==> !spec_sub8(spec_add8(a, r, false).0, r, false).1.carry,
{
    assert(((a + r) % 256 + 256 - r) % 256 == a && (a + r <= 255 ==> (a + r) % 256 >= r))
        by (bit_vector);
}

/// Swapping the nibbles of a byte twice restores the byte.
pub proof fn lemma_swap_involutive(x: u8)
    ensures
        spec_swap_val(spec_swap_val(x)) == x,
{
    assert(((((x % 16) * 16 + x / 16) as u8 % 16) * 16 + ((x % 16) * 16 + x / 16) as u8 / 16) as u8
        == x) by (bit_vector);
}

/// Eight left rotations restore a byte; the final Z flag reflects the byte
/// being zero and the final C flag holds the bit that was rotated into
/// position 0, which is bit 0 of the byte.
#[verifier::rlimit(60)]
pub proof fn lemma_rlc_eight(x: u8)
    ensures
        spec_rlc_iter(x, 8) == x,
        spec_rlc(spec_rlc_iter(x, 7)).1.zero == (x == 0),
        spec_rlc(spec_rlc_iter(x, 7)).1.carry == (x % 2 == 1),
{
    reveal_with_fuel(spec_rlc_iter, 9);
    let x1 = spec_rlc_val(x);
    let x2 = spec_rlc_val(x1);
    let x3 = spec_rlc_val(x2);
    let x4 = spec_rlc_val(x3);
    let x5 = spec_rlc_val(x4);
    let x6 = spec_rlc_val(x5);
    let x7 = spec_rlc_val(x6);
    let x8 = spec_rlc_val(x7);
    assert(spec_rlc_iter(x, 1) == x1);
    assert(spec_rlc_iter(x, 2) == x2);
    assert(spec_rlc_iter(x, 3) == x3);
    assert(spec_rlc_iter(x, 4) == x4);
    assert(spec_rlc_iter(x, 5) == x5);
    assert(spec_rlc_iter(x, 6) == x6);
    assert(spec_rlc_iter(x, 7) == x7);
    assert(spec_rlc_iter(x, 8) == x8);
    assert(x8 == x && (x7 >= 128 <==> x % 2 == 1)) by (bit_vector)
        requires
            x1 == ((x % 128) * 2 + x / 128) as u8,
            x2 == ((x1 % 128) * 2 + x1 / 128) as u8,
            x3 == ((x2 % 128) * 2 + x2 / 128) as u8,
            x4 == ((x3 % 128) * 2 + x3 / 128) as u8,
            x5 == ((x4 % 128) * 2 + x4 / 128) as u8,
            x6 == ((x5 % 128) * 2 + x5 / 128) as u8,
            x7 == ((x6 % 128) * 2 + x6 / 128) as u8,
            x8 == ((x7 % 128) * 2 + x7 / 128) as u8,
    ;
}

/// Decimal adjust after adding two binary-coded-decimal bytes yields the
/// binary-coded-decimal sum modulo 100, with C set exactly when the decimal
/// sum reached 100.
pub proof fn lemma_daa_add_bcd(a: u8, b: u8)
    requires
        a % 16 <= 9,
        a / 16 <= 9,
        b % 16 <= 9,
        b / 16 <= 9,
    ensures
        spec_bcd_value(spec_daa(spec_add8(a, b, false).0, spec_add8(a, b, false).1).0) == (
        spec_bcd_value(a) + spec_bcd_value(b)) % 100,
        spec_daa(spec_add8(a, b, false).0, spec_add8(a, b, false).1).0 % 16 <= 9,
        spec_daa(spec_add8(a, b, false).0, spec_add8(a, b, false).1).0 / 16 <= 9,
        spec_daa(spec_add8(a, b, false).0, spec_add8(a, b, false).1).1.carry <==> spec_bcd_value(a)
            + spec_bcd_value(b) >= 100,
{
    let s = spec_add8(a, b, false).0;
    let f = spec_add8(a, b, false).1;
    let d = spec_daa(s, f).0;
    let fh = f.half_carry;
    let fc = f.carry;
    let low = fh || s % 16 > 9;
    let high = fc || s > 0x99;
    assert(d == ((s + (if low {
        6int
    } else {
        0
    }) + (if high {
        0x60int
    } else {
        0
    })) % 256) as u8);
    assert({
        let dd = ((s + (if low {
            6int
        } else {
            0
        }) + (if high {
            0x60int
        } else {
            0
        })) % 256) as u8;
        dd / 16 * 10 + dd % 16 == (((a / 16) * 10 + a % 16) + ((b / 16) * 10 + b % 16)) % 100
            && dd % 16 <= 9 && dd / 16 <= 9 && ((fc || high) <==> ((a / 16) * 10 + a % 16) + ((
        b / 16) * 10 + b % 16) >= 100)
    }) by (bit_vector)
        requires
            a % 16 <= 9,
            a / 16 <= 9,
            b % 16 <= 9,
            b / 16 <= 9,
            s == ((a + b) % 256) as u8,
            fh == (a % 16 + b % 16 > 15),
            fc == (a + b > 255),
            low == (fh || s % 16 > 9),
            high == (fc || s > 0x99),
    ;
}

/// Decimal adjust after subtracting two binary-coded-decimal bytes yields
/// the decimal difference modulo 100, with C set exactly when a decimal
/// borrow occurred.
pub proof fn lemma_daa_sub_bcd(a: u8, b: u8)
    requires
        a % 16 <= 9,
        a / 16 <= 9,
        b % 16 <= 9,
        b / 16 <= 9,
    ensures
        spec_bcd_value(spec_daa(spec_sub8(a, b, false).0, spec_sub8(a, b, false).1).0) == (
        spec_bcd_value(a) - spec_bcd_value(b) + 100) % 100,
        spec_daa(spec_sub8(a, b, false).0, spec_sub8(a, b, false).1).0 % 16 <= 9,
        spec_daa(spec_sub8(a, b, false).0, spec_sub8(a, b, false).1).0 / 16 <= 9,
        spec_daa(spec_sub8(a, b, false).0, spec_sub8(a, b, false).1).1.carry <==> spec_bcd_value(a)
            < spec_bcd_value(b),
{
    let s = spec_sub8(a, b, false).0;
    let f = spec_sub8(a, b, false).1;
    let fh = f.half_carry;
    let fc = f.carry;
    assert(spec_daa(s, f).0 == ((s + 256 - (if fh {
        6int
    } else {
        0
    }) - (if fc {
        0x60int
    } else {
        0
    })) % 256) as u8);
    assert({
        let dd = ((s + 256 - (if fh {
            6int
        } else {
            0
        }) - (if fc {
            0x60int
        } else {
            0
        })) % 256) as u8;
        dd / 16 * 10 + dd % 16 == (((a / 16) * 10 + a % 16) - ((b / 16) * 10 + b % 16) + 100) % 100
            && dd % 16 <= 9 && dd / 16 <= 9 && (fc <==> ((a / 16) * 10 + a % 16) < ((b / 16)
            * 10 + b % 16))
    }) by (bit_vector)
        requires
            a % 16 <= 9,
            a / 16 <= 9,
            b % 16 <= 9,
            b / 16 <= 9,
            s == ((a + 256 - b) % 256) as u8,
            fh == (a % 16 < b % 16),
            fc == (a < b),
    ;
}

/// XOR of the accumulator with itself yields zero with only the Z flag set.
pub proof fn lemma_xor_self(a: u8)
    ensures
        spec_xor8(a, a) == (
            0u8,
            CpuFlag { zero: true, subtraction: false, half_carry: false, carry: false },
        ),
{
    assert(a ^ a == 0) by (bit_vector);
}

} // verus!
