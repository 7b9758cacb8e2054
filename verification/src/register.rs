//! The register file: eight 8-bit registers, four condition flags packed
//! into the `f` byte (bits 7..4; bits 3..0 are always zero), and the four
//! 16-bit register pairs `af`, `bc`, `de`, `hl`.

use vstd::prelude::*;

verus! {

/// The four condition flags. The flags register `f` is not free storage:
/// it is always the packed image of these four booleans.
#[derive(Clone, Copy, Debug, PartialEq, Eq)]
pub struct FlagsRegister {
    pub zero: bool,
    pub subtraction: bool,
    pub half_carry: bool,
    pub carry: bool,
}

/// The packed byte image of the four flags: `zero` in bit 7, `subtraction`
/// in bit 6, `half_carry` in bit 5, `carry` in bit 4, low nibble zero.
pub open spec fn byte_of_flags(f: FlagsRegister) -> u8 {
    ((if f.zero {
        128int
    } else {
        0int
    }) + (if f.subtraction {
        64int
    } else {
        0int
    }) + (if f.half_carry {
        32int
    } else {
        0int
    }) + (if f.carry {
        16int
    } else {
        0int
    })) as u8
}

/// The four flags read out of a byte: bit 7 is `zero`, bit 6 `subtraction`,
/// bit 5 `half_carry`, bit 4 `carry`; the low nibble is ignored.
pub open spec fn flags_of_byte(b: u8) -> FlagsRegister {
    FlagsRegister {
        zero: b / 128 % 2 == 1,
        subtraction: b / 64 % 2 == 1,
        half_carry: b / 32 % 2 == 1,
        carry: b / 16 % 2 == 1,
    }
}

/// A 16-bit register pair: high byte in the upper half, low byte in the lower.
pub open spec fn pair(hi: u8, lo: u8) -> u16 {
    (hi * 256 + lo) as u16
}

/// The high byte of a 16-bit value.
pub open spec fn hi_byte(v: u16) -> u8 {
    (v / 256) as u8
}

/// The low byte of a 16-bit value.
pub open spec fn lo_byte(v: u16) -> u8 {
    (v % 256) as u8
}

/// Law: packing four flags into a byte and unpacking that byte yields the
/// identical four flags, and the packed byte's low nibble is always zero.
pub proof fn lemma_flags_round_trip(f: FlagsRegister)
    ensures
        flags_of_byte(byte_of_flags(f)) == f,
        byte_of_flags(f) % 16 == 0,
{
}

/// Law: splitting a 16-bit value into its high and low bytes and recombining
/// them yields the value back, for every 16-bit value.
pub proof fn lemma_pair_round_trip(v: u16)
    ensures
        pair(hi_byte(v), lo_byte(v)) == v,
{
}

/// Law: routing a 16-bit value's low byte through the flags (unpack, then
/// repack) keeps exactly the high nibble of that byte, so writing `af` and
/// reading it back yields the value with its low nibble cleared.
pub proof fn lemma_af_round_trip(v: u16)
    ensures
        pair(hi_byte(v), byte_of_flags(flags_of_byte(lo_byte(v)))) == v / 16 * 16,
{
    let b = lo_byte(v);
    assert(byte_of_flags(flags_of_byte(b)) == b / 16 * 16) by (bit_vector);
}

impl FlagsRegister {
    /// Pack the four flags into their byte image.
    pub fn to_byte(&self) -> (r: u8)
        ensures
            r == byte_of_flags(*self),
    {
        (if self.zero {
            128u8
        } else {
            0u8
        }) + (if self.subtraction {
            64u8
        } else {
            0u8
        }) + (if self.half_carry {
            32u8
        } else {
            0u8
        }) + (if self.carry {
            16u8
        } else {
            0u8
        })
    }

    /// Unpack a byte into the four flags, ignoring its low nibble.
    pub fn from_byte(b: u8) -> (r: FlagsRegister)
        ensures
            r == flags_of_byte(b),
    {
        FlagsRegister {
            zero: b / 128 % 2 == 1,
            subtraction: b / 64 % 2 == 1,
            half_carry: b / 32 % 2 == 1,
            carry: b / 16 % 2 == 1,
        }
    }
}

/// The register file: seven general 8-bit registers and the flags.
#[derive(Clone, Copy, Debug, PartialEq, Eq)]
pub struct Registers {
    pub a: u8,
    pub b: u8,
    pub c: u8,
    pub d: u8,
    pub e: u8,
    pub h: u8,
    pub l: u8,
    pub f: FlagsRegister,
}

impl Registers {
    /// A register file with every register zero and every flag clear.
    pub fn new() -> (r: Registers)
        ensures
            r == (Registers {
                a: 0u8,
                b: 0u8,
                c: 0u8,
                d: 0u8,
                e: 0u8,
                h: 0u8,
                l: 0u8,
                f: FlagsRegister { zero: false, subtraction: false, half_carry: false, carry: false },
            }),
    {
        Registers {
            a: 0,
            b: 0,
            c: 0,
            d: 0,
            e: 0,
            h: 0,
            l: 0,
            f: FlagsRegister { zero: false, subtraction: false, half_carry: false, carry: false },
        }
    }

    /// Read the `af` pair: `a` above the packed flags byte.
    pub fn read_af(&self) -> (r: u16)
        ensures
            r == pair(self.a, byte_of_flags(self.f)),
    {
        (self.a as u16) * 256 + (self.f.to_byte() as u16)
    }

    /// Write the `af` pair: the high byte into `a`, the low byte unpacked
    /// into the four flags (its low nibble is discarded).
    pub fn write_af(&mut self, v: u16)
        ensures
            final(self).a == hi_byte(v),
            final(self).f == flags_of_byte(lo_byte(v)),
            final(self).b == old(self).b,
            final(self).c == old(self).c,
            final(self).d == old(self).d,
            final(self).e == old(self).e,
            final(self).h == old(self).h,
            final(self).l == old(self).l,
    {
        self.a = (v / 256) as u8;
        self.f = FlagsRegister::from_byte((v % 256) as u8);
    }

    /// Read the `bc` pair.
    pub fn read_bc(&self) -> (r: u16)
        ensures
            r == pair(self.b, self.c),
    {
        (self.b as u16) * 256 + (self.c as u16)
    }

    /// Write the `bc` pair: the high byte into `b`, the low byte into `c`.
    pub fn write_bc(&mut self, v: u16)
        ensures
            final(self).b == hi_byte(v),
            final(self).c == lo_byte(v),
            final(self).a == old(self).a,
            final(self).d == old(self).d,
            final(self).e == old(self).e,
            final(self).h == old(self).h,
            final(self).l == old(self).l,
            final(self).f == old(self).f,
    {
        self.b = (v / 256) as u8;
        self.c = (v % 256) as u8;
    }

    /// Read the `de` pair.
    pub fn read_de(&self) -> (r: u16)
        ensures
            r == pair(self.d, self.e),
    {
        (self.d as u16) * 256 + (self.e as u16)
    }

    /// Write the `de` pair: the high byte into `d`, the low byte into `e`.
    pub fn write_de(&mut self, v: u16)
        ensures
            final(self).d == hi_byte(v),
            final(self).e == lo_byte(v),
            final(self).a == old(self).a,
            final(self).b == old(self).b,
            final(self).c == old(self).c,
            final(self).h == old(self).h,
            final(self).l == old(self).l,
            final(self).f == old(self).f,
    {
        self.d = (v / 256) as u8;
        self.e = (v % 256) as u8;
    }

    /// Read the `hl` pair.
    pub fn read_hl(&self) -> (r: u16)
        ensures
            r == pair(self.h, self.l),
    {
        (self.h as u16) * 256 + (self.l as u16)
    }

    /// Write the `hl` pair: the high byte into `h`, the low byte into `l`.
    pub fn write_hl(&mut self, v: u16)
        ensures
            final(self).h == hi_byte(v),
            final(self).l == lo_byte(v),
            final(self).a == old(self).a,
            final(self).b == old(self).b,
            final(self).c == old(self).c,
            final(self).d == old(self).d,
            final(self).e == old(self).e,
            final(self).f == old(self).f,
    {
        self.h = (v / 256) as u8;
        self.l = (v % 256) as u8;
    }
}

} // verus!
