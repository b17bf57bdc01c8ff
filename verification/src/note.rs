//! Note identity types: a note index on the chromatic grid and a note
//! velocity.

use vstd::prelude::*;

verus! {

/// The integer carrier of a note index.
pub type NoteNumberValue = i16;

/// A discrete pitch position: consecutive values are one step of the tuning
/// system's chromatic grid apart.
#[derive(Debug, Clone, Copy, PartialEq, Eq, Structural)]
pub struct NoteNumber {
    pub value: NoteNumberValue,
}

/// A note velocity; negative values are a sentinel for "invalid", not a
/// clamped loudness.
#[derive(Debug, Clone, Copy, PartialEq, Eq, Structural)]
pub struct NoteVelocity {
    pub value: i8,
}

impl NoteVelocity {
    /// A velocity is valid exactly when it is non-negative.
    pub fn valid(&self) -> (r: bool)
        ensures
            r == (self.value >= 0),
    {
        self.value >= 0
    }
}

impl From<i8> for NoteVelocity {
    fn from(value: i8) -> (r: Self) {
        NoteVelocity { value }
    }
}

impl vstd::std_specs::convert::FromSpecImpl<i8> for NoteVelocity {
    open spec fn obeys_from_spec() -> bool {
        true
    }

    open spec fn from_spec(value: i8) -> Self {
        NoteVelocity { value }
    }
}

impl From<NoteVelocity> for i8 {
    fn from(note_velocity: NoteVelocity) -> (r: i8) {
        note_velocity.value
    }
}

impl vstd::std_specs::convert::FromSpecImpl<NoteVelocity> for i8 {
    open spec fn obeys_from_spec() -> bool {
        true
    }

    open spec fn from_spec(note_velocity: NoteVelocity) -> i8 {
        note_velocity.value
    }
}

impl From<NoteNumberValue> for NoteNumber {
    fn from(value: NoteNumberValue) -> (r: Self) {
        NoteNumber { value }
    }
}

impl vstd::std_specs::convert::FromSpecImpl<NoteNumberValue> for NoteNumber {
    open spec fn obeys_from_spec() -> bool {
        true
    }

    open spec fn from_spec(value: NoteNumberValue) -> Self {
        NoteNumber { value }
    }
}

impl From<NoteNumber> for NoteNumberValue {
    fn from(note_number: NoteNumber) -> (r: NoteNumberValue) {
        note_number.value
    }
}

impl vstd::std_specs::convert::FromSpecImpl<NoteNumber> for NoteNumberValue {
    open spec fn obeys_from_spec() -> bool {
        true
    }

    open spec fn from_spec(note_number: NoteNumber) -> NoteNumberValue {
        note_number.value
    }
}

} // verus!
