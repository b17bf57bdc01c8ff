//! Pitch-class sets of the 12-tone grid, packed as bit flags: one bit per
//! pitch class, C in the lowest bit.

use vstd::prelude::*;

verus! {

pub const C: u16 = 1;

pub const C_SHARP: u16 = 2;

pub const D_FLAT: u16 = 2;

pub const D: u16 = 4;

pub const D_SHARP: u16 = 8;

pub const E_FLAT: u16 = 8;

pub const E: u16 = 16;

pub const F: u16 = 32;

pub const F_SHARP: u16 = 64;

pub const G_FLAT: u16 = 64;

pub const G: u16 = 128;

pub const G_SHARP: u16 = 256;

pub const A_FLAT: u16 = 256;

pub const A: u16 = 512;

pub const A_SHARP: u16 = 1024;

pub const B_FLAT: u16 = 1024;

pub const B: u16 = 2048;

/// All twelve pitch classes at once.
pub const ALL: u16 = 0xfff;

/// How many bits of `v` are set.
pub open spec fn spec_popcount(v: u16) -> nat
    decreases v,
{
    if v == 0 {
        0
    } else {
        spec_popcount(v / 2) + (v % 2) as nat
    }
}

/// A set's bit count never exceeds its numeric value.
proof fn lemma_popcount_le_value(v: u16)
    ensures
        spec_popcount(v) <= v,
    decreases v,
{
    if v != 0 {
        lemma_popcount_le_value(v / 2);
    }
}

/// Something that reads as a pitch-class set.
pub trait TwelveTone {
    /// The set's bit-flag value.
    spec fn spec_twelve_tone_value(&self) -> u16;

    /// The set's bit-flag value.
    fn twelve_tone_value(&self) -> (r: u16)
        ensures
            r == self.spec_twelve_tone_value(),
    ;

    /// How many pitch classes the set holds.
    fn len(&self) -> (r: usize)
        ensures
            r == spec_popcount(self.spec_twelve_tone_value()),
    ;
}

impl TwelveTone for u16 {
    open spec fn spec_twelve_tone_value(&self) -> u16 {
        *self & ALL
    }

    fn twelve_tone_value(&self) -> (r: u16) {
        *self & ALL
    }

    fn len(&self) -> (r: usize) {
        let mut v: u16 = self.twelve_tone_value();
        let ghost start: u16 = v;
        proof {
            lemma_popcount_le_value(start);
        }
        let mut count: usize = 0;
        while v != 0
            invariant
                count + spec_popcount(v) == spec_popcount(start),
                spec_popcount(start) <= 0xffff,
            decreases v,
        {
            count = count + ((v % 2) as usize);
            v = v / 2;
        }
        count
    }
}

} // verus!
