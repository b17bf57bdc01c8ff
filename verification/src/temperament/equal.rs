//! Equal-division temperament: `n` equal logarithmic steps per period.

use vstd::prelude::*;

use vstd::arithmetic::div_mod::lemma_div_basics;

use crate::note::NoteNumber;
use crate::temperament::equal_temperament_period_exponent;
use crate::temperament::spec_trunc_div;
use crate::temperament::PitchFactors;
use crate::temperament::Temperament;
use crate::temperament::TemperamentBase;
use crate::temperament::TemperamentError;

verus! {

/// A temperament dividing the period (an octave, ratio 2) into `n` equal
/// steps from its base. Only whole periods change the answered factors: the
/// period exponent is the note-index delta divided by `n`, truncating toward
/// zero.
#[derive(Debug)]
pub struct EqualTemperament<Base: TemperamentBase> {
    base: Base,
    n: usize,
}

impl<Base: TemperamentBase> EqualTemperament<Base> {
    /// The base the temperament is anchored at.
    pub closed spec fn spec_base(&self) -> Base {
        self.base
    }

    /// The number of steps per period.
    pub closed spec fn spec_n(&self) -> usize {
        self.n
    }

    /// Accepts the division count exactly when it is at least one.
    pub fn new(base: Base, n: usize) -> (r: Result<Self, TemperamentError>)
        ensures
            n == 0 <==> r == Err::<Self, TemperamentError>(
                TemperamentError::InvalidDivisionCount,
            ),
            n >= 1 ==> {
                &&& r is Ok
                &&& r->Ok_0.wf()
                &&& r->Ok_0.spec_base() == base
                &&& r->Ok_0.spec_n() == n
            },
    {
        if n < 1 {
            return Err(TemperamentError::InvalidDivisionCount);
        }
        Ok(EqualTemperament { base, n })
    }
}

impl<Base: TemperamentBase> Temperament for EqualTemperament<Base> {
    open spec fn wf(&self) -> bool {
        self.spec_n() >= 1
    }

    open spec fn in_range(&self, note: int) -> bool {
        true
    }

    open spec fn spec_pitch(&self, note: int) -> PitchFactors {
        PitchFactors {
            period_exponent: spec_trunc_div(
                note - self.spec_base().spec_base_note_number(),
                self.spec_n() as int,
            ) as i32,
            scale_index: 0,
        }
    }

    fn pitch(&self, note_number: NoteNumber) -> (r: PitchFactors) {
        let exponent = match equal_temperament_period_exponent(
            self.base.base_note_number(),
            self.n,
            note_number,
        ) {
            Ok(exponent) => exponent,
            Err(_) => vstd::pervasive::unreached(),
        };
        PitchFactors { period_exponent: exponent, scale_index: 0 }
    }
}

/// One period above the base, the frequency has doubled: at the base note
/// itself the period exponent is zero (the frequency is the base
/// frequency), and `n` steps higher it is one (the frequency is twice the
/// base frequency).
pub proof fn lemma_equal_temperament_octave<Base: TemperamentBase>(t: EqualTemperament<Base>)
    requires
        t.wf(),
    ensures
        t.spec_pitch(t.spec_base().spec_base_note_number() as int) == (PitchFactors {
            period_exponent: 0,
            scale_index: 0,
        }),
        t.spec_pitch(t.spec_base().spec_base_note_number() + t.spec_n()) == (PitchFactors {
            period_exponent: 1,
            scale_index: 0,
        }),
{
    lemma_div_basics(t.spec_n() as int);
}

} // verus!
