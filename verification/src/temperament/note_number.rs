//! Standard note indices of the 12-tone grid around middle C.

use vstd::prelude::*;

use crate::note::NoteNumberValue;

verus! {

pub const C4: NoteNumberValue = 60;

pub const C4_SHARP: NoteNumberValue = 61;

pub const D4_FLAT: NoteNumberValue = 61;

pub const D4: NoteNumberValue = 62;

pub const D4_SHARP: NoteNumberValue = 63;

pub const E4_FLAT: NoteNumberValue = 63;

pub const E4: NoteNumberValue = 64;

pub const F4: NoteNumberValue = 65;

pub const F4_SHARP: NoteNumberValue = 66;

pub const G4_FLAT: NoteNumberValue = 66;

pub const G4: NoteNumberValue = 67;

pub const G4_SHARP: NoteNumberValue = 68;

pub const A4_FLAT: NoteNumberValue = 68;

pub const A4: NoteNumberValue = 69;

pub const A4_SHARP: NoteNumberValue = 70;

pub const B4_FLAT: NoteNumberValue = 70;

pub const B4: NoteNumberValue = 71;

} // verus!
