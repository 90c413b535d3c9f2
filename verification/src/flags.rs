use vstd::prelude::*;

verus! {

/// The four condition flags, kept as separate booleans. Packing into the
/// high nibble of the flag byte happens only where the packed byte is
/// observed (the AF register pair).
#[derive(Clone, Copy, Debug, PartialEq, Eq, Structural)]
pub struct RegF {
    /// Zero: the last result was 0.
    pub z: bool,
    /// Negative/subtract: the last operation was a subtraction.
    pub n: bool,
    /// Half-carry: carry out of bit 3.
    pub h: bool,
    /// Carry: carry out of bit 7, or borrow on subtraction.
    pub c: bool,
}

/// True iff an 8-bit result is zero.
pub open spec fn spec_zero(val: u8) -> bool {
    val == 0
}

/// True iff adding the low nibbles of `lhs` and `rhs` carries out of bit 3.
pub open spec fn spec_half_carry_add(lhs: u8, rhs: u8) -> bool {
    lhs % 16 + rhs % 16 > 15
}

/// True iff subtracting the low nibble of `rhs` from that of `lhs` borrows.
pub open spec fn spec_half_carry_sub(lhs: u8, rhs: u8) -> bool {
    lhs % 16 < rhs % 16
}

/// True iff the unsigned 8-bit sum `lhs + rhs` exceeds 0xFF.
pub open spec fn spec_carry_add(lhs: u8, rhs: u8) -> bool {
    lhs + rhs > 0xFF
}

/// True iff the unsigned 8-bit subtraction `lhs - rhs` borrows.
pub open spec fn spec_carry_sub(lhs: u8, rhs: u8) -> bool {
    lhs < rhs
}

/// The packed flag byte: bit 7 = zero, bit 6 = negative, bit 5 = half-carry,
/// bit 4 = carry; the low nibble is always zero.
pub open spec fn flag_byte(f: RegF) -> u8 {
    ((if f.z {
        0x80int
    } else {
        0int
    }) + (if f.n {
        0x40int
    } else {
        0int
    }) + (if f.h {
        0x20int
    } else {
        0int
    }) + (if f.c {
        0x10int
    } else {
        0int
    })) as u8
}

/// The flags unpacked from a byte: each flag is the corresponding bit of the
/// high nibble; the low nibble is discarded.
pub open spec fn flags_of_byte(data: u8) -> RegF {
    RegF {
        z: data / 0x80 % 2 == 1,
        n: data / 0x40 % 2 == 1,
        h: data / 0x20 % 2 == 1,
        c: data / 0x10 % 2 == 1,
    }
}

impl RegF {
    /// All four flags cleared.
    pub fn clear() -> (f: RegF)
        ensures
            f == (RegF { z: false, n: false, h: false, c: false }),
    {
        RegF { z: false, n: false, h: false, c: false }
    }

    /// Unpack a flag byte: each flag becomes the corresponding bit of the
    /// high nibble.
    pub fn write(&mut self, data: u8)
        ensures
            *final(self) == flags_of_byte(data),
    {
        self.z = data / 0x80 % 2 == 1;
        self.n = data / 0x40 % 2 == 1;
        self.h = data / 0x20 % 2 == 1;
        self.c = data / 0x10 % 2 == 1;
    }

    /// Pack the flags into a byte, high nibble only.
    pub fn read(&self) -> (data: u8)
        ensures
            data == flag_byte(*self),
    {
        let mut data: u8 = 0;
        if self.z {
            data = data + 0x80;
        }
        if self.n {
            data = data + 0x40;
        }
        if self.h {
            data = data + 0x20;
        }
        if self.c {
            data = data + 0x10;
        }
        data
    }
}

/// Packing then unpacking restores the flags: the four bits stand apart in
/// the byte, so no flag can shadow another.
pub proof fn lemma_flag_byte_round_trip(f: RegF)
    ensures
        flags_of_byte(flag_byte(f)) == f,
{
}

} // verus!
