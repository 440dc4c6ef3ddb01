//! The processor status flags: four named boolean bits packed into the high
//! nibble of register F.  The typed representation keeps the low nibble of F
//! zero by construction, so the packing invariant cannot be broken by any
//! flag update.

use vstd::prelude::*;

verus! {

/// One of the four status flags, identified by name.
#[derive(Clone, Copy, Debug, PartialEq, Eq, Structural)]
pub enum Flag {
    Zero,
    Subtract,
    HalfCarry,
    Carry,
}

/// The flag register as four named booleans: Zero at bit 7, Subtract at
/// bit 6, HalfCarry at bit 5, Carry at bit 4 of the packed byte.
#[derive(Clone, Copy, Debug, PartialEq, Eq, Structural)]
pub struct Flags {
    pub z: bool,
    pub n: bool,
    pub h: bool,
    pub c: bool,
}

impl Flags {
    /// The byte stored in register F for this flag state; the low nibble is
    /// always zero.
    pub open spec fn spec_byte(self) -> u8 {
        ((if self.z { 0x80int } else { 0int }) + (if self.n { 0x40int } else { 0int })
            + (if self.h { 0x20int } else { 0int }) + (if self.c { 0x10int } else { 0int })) as u8
    }

    /// The flag state denoted by a byte written to register F; the low
    /// nibble of the byte is discarded.
    pub open spec fn spec_of_byte(v: u8) -> Flags {
        Flags {
            z: v / 0x80 % 2 == 1,
            n: v / 0x40 % 2 == 1,
            h: v / 0x20 % 2 == 1,
            c: v / 0x10 % 2 == 1,
        }
    }

    /// The value of one named flag.
    pub open spec fn spec_read(self, f: Flag) -> bool {
        match f {
            Flag::Zero => self.z,
            Flag::Subtract => self.n,
            Flag::HalfCarry => self.h,
            Flag::Carry => self.c,
        }
    }

    /// This flag state with one named flag replaced and the other three kept.
    pub open spec fn spec_with(self, f: Flag, v: bool) -> Flags {
        match f {
            Flag::Zero => Flags { z: v, ..self },
            Flag::Subtract => Flags { n: v, ..self },
            Flag::HalfCarry => Flags { h: v, ..self },
            Flag::Carry => Flags { c: v, ..self },
        }
    }

    /// Pack the four flags into the byte read out of register F.
    pub fn byte(&self) -> (r: u8)
        ensures
            r == self.spec_byte(),
    {
        let mut r: u8 = 0;
        if self.z {
            r = r + 0x80;
        }
        if self.n {
            r = r + 0x40;
        }
        if self.h {
            r = r + 0x20;
        }
        if self.c {
            r = r + 0x10;
        }
        r
    }

    /// Unpack a byte written to register F into the four flags, discarding
    /// the low nibble.
    pub fn of_byte(v: u8) -> (r: Flags)
        ensures
            r == Flags::spec_of_byte(v),
    {
        Flags {
            z: v / 0x80 % 2 == 1,
            n: v / 0x40 % 2 == 1,
            h: v / 0x20 % 2 == 1,
            c: v / 0x10 % 2 == 1,
        }
    }
}

/// The byte image of any flag state has a zero low nibble.
pub proof fn lemma_byte_low_nibble_zero(fl: Flags)
    ensures
        fl.spec_byte() % 16 == 0,
{
}

/// A byte with a zero low nibble survives the trip through the flag
/// representation unchanged.
pub proof fn lemma_of_byte_round_trip(v: u8)
    requires
        v % 16 == 0,
    ensures
        Flags::spec_of_byte(v).spec_byte() == v,
{
    assert(((if (v / 0x80 % 2 == 1) { 0x80int } else { 0int }) + (if (v / 0x40 % 2 == 1) { 0x40int } else { 0int })
        + (if (v / 0x20 % 2 == 1) { 0x20int } else { 0int }) + (if (v / 0x10 % 2 == 1) { 0x10int } else { 0int })) as u8
        == v) by (bit_vector)
        requires
            v % 16 == 0,
    ;
}

/// Flag accessor round trip: writing a flag to true and then to false leaves
/// that flag clear, every other flag exactly as it was, and the low nibble
/// of F's byte image zero, for every starting flag state.
pub proof fn lemma_flag_round_trip(fl: Flags, f: Flag)
    ensures
        ({
            let fl2 = fl.spec_with(f, true).spec_with(f, false);
            &&& fl2.spec_read(f) == false
            &&& forall|g: Flag| g != f ==> fl2.spec_read(g) == fl.spec_read(g)
            &&& fl2.spec_byte() % 16 == 0
        }),
{
    let fl2 = fl.spec_with(f, true).spec_with(f, false);
    lemma_byte_low_nibble_zero(fl2);
}

} // verus!
