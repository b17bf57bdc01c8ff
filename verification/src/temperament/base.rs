//! Temperament bases: the reference note a temperament is anchored at.

use vstd::prelude::*;

use crate::binary32;
use crate::note::NoteNumber;
use crate::note::NoteNumberValue;
use crate::temperament::note_number;
use crate::temperament::TemperamentBase;
use crate::temperament::TemperamentError;

verus! {

/// Bit pattern of the standard concert pitch, `440.0f32` Hertz.
pub const A4_FREQUENCY_BITS: u32 = 0x43dc_0000;

/// A base whose reference frequency is derived from A4 = 440 Hz by the
/// 12-tone equal-temperament formula
/// `440 * 2^((note - 69) / 12)`. The formula itself is a floating-point
/// computation and is evaluated by the host; this type carries the anchor
/// note.
#[derive(Debug, Clone, Copy)]
pub struct StandardTemperamentBase {
    base_note_number: NoteNumber,
}

impl StandardTemperamentBase {
    /// Anchors the standard tuning at `base`.
    pub fn new(base: NoteNumberValue) -> (r: Self)
        ensures
            r.spec_base_note_number() == base,
    {
        StandardTemperamentBase { base_note_number: NoteNumber { value: base } }
    }

    /// The anchor note index.
    pub fn note_number(&self) -> (r: NoteNumberValue)
        ensures
            r == self.spec_base_note_number(),
    {
        self.base_note_number.value
    }
}

impl TemperamentBase for StandardTemperamentBase {
    closed spec fn spec_base_note_number(&self) -> NoteNumberValue {
        self.base_note_number.value
    }

    fn base_note_number(&self) -> (r: NoteNumber) {
        self.base_note_number
    }
}

/// A valid custom base frequency: it compares strictly greater than zero and
/// is finite (a NaN fails both demands).
pub open spec fn spec_valid_base_frequency(bits: u32) -> bool {
    &&& binary32::spec_value_lt(binary32::ZERO_BITS, bits)
    &&& binary32::spec_is_finite(bits)
}

/// A base with an explicitly stored reference frequency, given as the bit
/// pattern of the `f32` value.
#[derive(Debug, Clone, Copy)]
pub struct CustomTemperamentBase {
    base_note_number: NoteNumber,
    base_frequency_bits: u32,
}

impl CustomTemperamentBase {
    /// The stored reference frequency, as a bit pattern.
    pub closed spec fn spec_base_frequency_bits(&self) -> u32 {
        self.base_frequency_bits
    }

    /// Accepts the base exactly when the frequency is positive and finite;
    /// each way a frequency can be unusable is its own error.
    pub fn new(base: NoteNumberValue, base_frequency_bits: u32) -> (r: Result<
        Self,
        TemperamentError,
    >)
        ensures
            binary32::spec_value_le(base_frequency_bits, binary32::ZERO_BITS) <==> r == Err::<
                Self,
                TemperamentError,
            >(TemperamentError::NonPositiveBaseFrequency),
            (!binary32::spec_value_le(base_frequency_bits, binary32::ZERO_BITS)
                && binary32::spec_is_infinite(base_frequency_bits)) <==> r == Err::<
                Self,
                TemperamentError,
            >(TemperamentError::InfiniteBaseFrequency),
            binary32::spec_is_nan(base_frequency_bits) <==> r == Err::<Self, TemperamentError>(
                TemperamentError::NanBaseFrequency,
            ),
            r is Ok <==> spec_valid_base_frequency(base_frequency_bits),
            r is Ok ==> {
                &&& r->Ok_0.spec_base_note_number() == base
                &&& r->Ok_0.spec_base_frequency_bits() == base_frequency_bits
            },
    {
        if binary32::value_le(base_frequency_bits, binary32::ZERO_BITS) {
            return Err(TemperamentError::NonPositiveBaseFrequency);
        }
        if binary32::is_infinite_bits(base_frequency_bits) {
            return Err(TemperamentError::InfiniteBaseFrequency);
        }
        if binary32::is_nan_bits(base_frequency_bits) {
            return Err(TemperamentError::NanBaseFrequency);
        }
        Ok(CustomTemperamentBase { base_note_number: NoteNumber { value: base }, base_frequency_bits })
    }

    /// Anchors a custom tuning at A4 itself, with the given frequency.
    pub fn new_a4(a4_frequency_bits: u32) -> (r: Result<Self, TemperamentError>)
        ensures
            binary32::spec_value_le(a4_frequency_bits, binary32::ZERO_BITS) <==> r == Err::<
                Self,
                TemperamentError,
            >(TemperamentError::NonPositiveBaseFrequency),
            (!binary32::spec_value_le(a4_frequency_bits, binary32::ZERO_BITS)
                && binary32::spec_is_infinite(a4_frequency_bits)) <==> r == Err::<
                Self,
                TemperamentError,
            >(TemperamentError::InfiniteBaseFrequency),
            binary32::spec_is_nan(a4_frequency_bits) <==> r == Err::<Self, TemperamentError>(
                TemperamentError::NanBaseFrequency,
            ),
            r is Ok <==> spec_valid_base_frequency(a4_frequency_bits),
            r is Ok ==> {
                &&& r->Ok_0.spec_base_note_number() == note_number::A4
                &&& r->Ok_0.spec_base_frequency_bits() == a4_frequency_bits
            },
    {
        CustomTemperamentBase::new(note_number::A4, a4_frequency_bits)
    }

    /// The stored reference frequency, as a bit pattern.
    pub fn base_frequency_bits(&self) -> (r: u32)
        ensures
            r == self.spec_base_frequency_bits(),
    {
        self.base_frequency_bits
    }
}

impl TemperamentBase for CustomTemperamentBase {
    closed spec fn spec_base_note_number(&self) -> NoteNumberValue {
        self.base_note_number.value
    }

    fn base_note_number(&self) -> (r: NoteNumber) {
        self.base_note_number
    }
}

} // verus!
