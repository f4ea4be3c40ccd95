//! Eight-bit flag sets, as used for the processor status and the peripheral
//! control registers.

use vstd::prelude::*;

verus! {

/// Whether every bit of `mask` is set in `bits`.
pub open spec fn raised(bits: u8, mask: u8) -> bool {
    bits & mask == mask
}

/// `bits` with the bits of `mask` switched on or off.
pub open spec fn put(bits: u8, mask: u8, on: bool) -> u8 {
    if on {
        bits | mask
    } else {
        bits & !mask
    }
}

/// A set of up to eight named flags, held as one raw byte.
#[derive(Clone, Copy, Debug, PartialEq, Eq, Structural)]
pub struct Flags {
    pub bits: u8,
}

impl View for Flags {
    type V = u8;

    open spec fn view(&self) -> u8 {
        self.bits
    }
}

impl Flags {
    /// The set with no flag raised.
    pub fn empty() -> (r: Flags)
        ensures
            r@ == 0,
    {
        Flags { bits: 0 }
    }

    /// The set with every flag raised.
    pub fn all() -> (r: Flags)
        ensures
            r@ == 0xFF,
    {
        Flags { bits: 0xFF }
    }

    /// Imports a raw byte; all eight positions are named, so nothing is cut.
    pub fn from_bits_truncate(bits: u8) -> (r: Flags)
        ensures
            r@ == bits,
    {
        Flags { bits }
    }

    /// Exports the raw byte.
    pub fn bits(&self) -> (r: u8)
        ensures
            r == self@,
    {
        self.bits
    }

    /// Whether every flag of `mask` is raised.
    pub fn contains(&self, mask: u8) -> (r: bool)
        ensures
            r == raised(self@, mask),
    {
        self.bits & mask == mask
    }

    /// Raises the flags of `mask`.
    pub fn insert(&mut self, mask: u8)
        ensures
            final(self)@ == put(old(self)@, mask, true),
    {
        self.bits = self.bits | mask;
    }

    /// Lowers the flags of `mask`.
    pub fn remove(&mut self, mask: u8)
        ensures
            final(self)@ == put(old(self)@, mask, false),
    {
        self.bits = self.bits & !mask;
    }

    /// Raises or lowers the flags of `mask`.
    pub fn set(&mut self, mask: u8, on: bool)
        ensures
            final(self)@ == put(old(self)@, mask, on),
    {
        if on {
            self.insert(mask);
        } else {
            self.remove(mask);
        }
    }

    /// Flips the flags of `mask`.
    pub fn toggle(&mut self, mask: u8)
        ensures
            final(self)@ == old(self)@ ^ mask,
    {
        self.bits = self.bits ^ mask;
    }
}

/// After `put`, a non-empty mask reads back as it was written.
pub proof fn lemma_put_reads_back(bits: u8, mask: u8, on: bool)
    requires
        mask != 0,
    ensures
        raised(put(bits, mask, on), mask) == on,
{
    assert(mask != 0 ==> (bits | mask) & mask == mask && (bits & !mask) & mask != mask)
        by (bit_vector);
}

/// `put` leaves every flag outside its mask as it was.
pub proof fn lemma_put_keeps_others(bits: u8, mask: u8, on: bool, other: u8)
    requires
        mask & other == 0,
    ensures
        raised(put(bits, mask, on), other) == raised(bits, other),
{
    assert(mask & other == 0 ==> (bits | mask) & other == bits & other && (bits & !mask) & other
        == bits & other) by (bit_vector);
}

} // verus!
