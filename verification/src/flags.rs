use vstd::prelude::*;

verus! {

/// The processor flag byte, kept as four named booleans so that the low
/// nibble of the encoded byte is zero by construction.
#[derive(Clone, Copy, PartialEq, Eq, Structural, Debug)]
pub struct CpuFlag {
    /// Z: set when the result of an operation is zero.
    pub zero: bool,
    /// N: set by subtraction-style operations.
    pub subtraction: bool,
    /// H: carry out of bit 3 (bit 11 for 16-bit additions).
    pub half_carry: bool,
    /// C: carry out of bit 7 (bit 15 for 16-bit additions).
    pub carry: bool,
}

impl CpuFlag {
    /// The byte encoding of the flag register: Z at bit 7, N at 6, H at 5, C at 4.
    pub open spec fn spec_bits(self) -> u8 {
        (if self.zero { 0x80u8 } else { 0u8 } + if self.subtraction { 0x40u8 } else { 0u8 }
            + if self.half_carry { 0x20u8 } else { 0u8 } + if self.carry { 0x10u8 } else { 0u8 }) as u8
    }

    /// Decoding of a byte into flags: the low nibble is discarded.
    pub open spec fn spec_from_bits(val: u8) -> CpuFlag {
        CpuFlag {
            zero: val / 128 % 2 == 1,
            subtraction: val / 64 % 2 == 1,
            half_carry: val / 32 % 2 == 1,
            carry: val / 16 % 2 == 1,
        }
    }

    pub fn empty() -> (r: CpuFlag)
        ensures
            r == (CpuFlag { zero: false, subtraction: false, half_carry: false, carry: false }),
    {
        CpuFlag { zero: false, subtraction: false, half_carry: false, carry: false }
    }

    /// The encoded flag byte always has a zero low nibble.
    pub fn bits(&self) -> (r: u8)
        ensures
            r == self.spec_bits(),
            r % 16 == 0,
    {
        let z: u8 = if self.zero { 0x80 } else { 0 };
        let n: u8 = if self.subtraction { 0x40 } else { 0 };
        let h: u8 = if self.half_carry { 0x20 } else { 0 };
        let c: u8 = if self.carry { 0x10 } else { 0 };
        z + n + h + c
    }

    /// Decodes a byte written to the flag register; the low nibble is ignored,
    /// so decoding re-encodes to `val` with the low nibble cleared.
    pub fn from_bits_retain(val: u8) -> (r: CpuFlag)
        ensures
            r == CpuFlag::spec_from_bits(val),
            r.spec_bits() == val - val % 16,
    {
        let r = CpuFlag {
            zero: val / 128 % 2 == 1,
            subtraction: val / 64 % 2 == 1,
            half_carry: val / 32 % 2 == 1,
            carry: val / 16 % 2 == 1,
        };
        proof {
            assert((if val / 128 % 2 == 1 { 0x80u8 } else { 0u8 })
                + (if val / 64 % 2 == 1 { 0x40u8 } else { 0u8 })
                + (if val / 32 % 2 == 1 { 0x20u8 } else { 0u8 })
                + (if val / 16 % 2 == 1 { 0x10u8 } else { 0u8 }) == val - val % 16) by (bit_vector);
        }
        r
    }
}

} // verus!
