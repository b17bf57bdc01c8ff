//! Temperaments: rules mapping a note index to a frequency.
//!
//! A temperament never hands out a floating-point number. Its answer is a
//! [`PitchFactors`]: the exact integer exponent of the period and the index
//! of the scale ratio, from which the host computes
//! `base_frequency * period^period_exponent * scale[scale_index]` in `f32`.
//! Everything up to that final multiplication — the wraparound of negative
//! note offsets, the validation of scales, the cache table — is decided
//! here, exactly.

pub mod base;
pub mod equal;
pub mod just;
pub mod note_number;
pub mod periodic;
pub mod twelve_tone;

use vstd::prelude::*;

use crate::note::NoteNumber;
use crate::note::NoteNumberValue;

verus! {

/// A configuration or precondition violation, detected at construction or
/// query time. None of these is recovered from internally; the caller
/// decides whether to abort or propagate.
#[derive(Debug, Clone, Copy, PartialEq, Eq, Structural)]
pub enum TemperamentError {
    /// An equal temperament was asked to divide the period into zero steps.
    InvalidDivisionCount,
    /// A custom base frequency compared less than or equal to zero.
    NonPositiveBaseFrequency,
    /// A custom base frequency was infinite.
    InfiniteBaseFrequency,
    /// A custom base frequency was a NaN.
    NanBaseFrequency,
    /// A periodic temperament was given an empty scale.
    EmptyScale,
    /// The first scale ratio did not compare greater than one.
    FirstScaleRatioNotAboveOne,
    /// A scale ratio did not compare greater than its predecessor.
    NonMonotonicScale,
    /// A cache was asked for with `min > max`.
    InvalidCacheRange,
    /// A cache was queried outside its range.
    NoteOutOfCacheRange,
}

/// The discrete factors of a frequency: the note's position relative to the
/// temperament's base. The frequency itself is
/// `base_frequency * period^period_exponent * scale[scale_index]`,
/// where an equal temperament has period 2 and a single implicit unit ratio
/// (its `scale_index` is always 0).
#[derive(Debug, Clone, Copy, PartialEq, Eq, Structural)]
pub struct PitchFactors {
    /// How many whole periods the note lies above (negative: below) the base.
    pub period_exponent: i32,
    /// Which ratio of the scale the note falls on within its period.
    pub scale_index: usize,
}

/// A reference point for a temperament: the note index its formula is
/// anchored at. The reference frequency in Hertz is a floating-point matter
/// and stays with the host; see [`base::CustomTemperamentBase`] for the one
/// base that carries its frequency (as a bit pattern).
pub trait TemperamentBase {
    /// The reference note index.
    spec fn spec_base_note_number(&self) -> NoteNumberValue;

    /// The reference note index.
    fn base_note_number(&self) -> (r: NoteNumber)
        ensures
            r.value == self.spec_base_note_number(),
    ;
}

/// A rule mapping a note index to the discrete factors of its frequency.
pub trait Temperament {
    /// The temperament's construction-time invariant.
    spec fn wf(&self) -> bool;

    /// The note indices the temperament answers for (everything, except for
    /// a cache, which answers only inside its range).
    spec fn in_range(&self, note: int) -> bool;

    /// What the temperament answers, as a function of the note index.
    spec fn spec_pitch(&self, note: int) -> PitchFactors;

    /// The factors of the frequency at `note_number`.
    fn pitch(&self, note_number: NoteNumber) -> (r: PitchFactors)
        requires
            self.wf(),
            self.in_range(note_number.value as int),
        ensures
            r == self.spec_pitch(note_number.value as int),
    ;
}

/// Division truncating toward zero, for a positive divisor: the exponent
/// rule of the equal temperament. For negative dividends not evenly
/// divisible this is one step closer to zero than floor division — a
/// deliberate fidelity to the formula as deployed, not an oversight to mend
/// here.
pub open spec fn spec_trunc_div(a: int, b: int) -> int {
    if a >= 0 {
        a / b
    } else {
        -((-a) / b)
    }
}

/// The period exponent of the equal temperament with `n` steps per period:
/// the note-index delta divided by `n`, truncating toward zero. Fails
/// exactly when `n` is zero.
pub fn equal_temperament_period_exponent(
    base_note_number: NoteNumber,
    n: usize,
    note_number: NoteNumber,
) -> (r: Result<i32, TemperamentError>)
    ensures
        n == 0 ==> r == Err::<i32, TemperamentError>(TemperamentError::InvalidDivisionCount),
        n >= 1 ==> {
            &&& r is Ok
            &&& r->Ok_0 as int == spec_trunc_div(
                note_number.value - base_note_number.value,
                n as int,
            )
        },
{
    if n < 1 {
        return Err(TemperamentError::InvalidDivisionCount);
    }
    let delta: i32 = note_number.value as i32 - base_note_number.value as i32;
    if delta >= 0 {
        let q: usize = (delta as usize) / n;
        Ok(q as i32)
    } else {
        let m: usize = (-delta) as usize;
        let q: usize = m / n;
        Ok(-(q as i32))
    }
}

/// A temperament that owns another one and a precomputed table of its
/// answers over a closed range of note indices. Built eagerly at
/// construction; read-only afterwards; a lookup never recomputes, and the
/// table holds exactly what the underlying temperament answers.
#[derive(Debug)]
pub struct CachedTemperament<T: Temperament> {
    temperament: T,
    cache: Vec<PitchFactors>,
    min_note_number: NoteNumberValue,
    max_note_number: NoteNumberValue,
}

impl<T: Temperament> CachedTemperament<T> {
    /// The underlying temperament.
    pub closed spec fn spec_temperament(&self) -> T {
        self.temperament
    }

    /// The precomputed table, from `min` to `max` inclusive.
    pub closed spec fn spec_cache(&self) -> Seq<PitchFactors> {
        self.cache@
    }

    /// The lowest cached note index.
    pub closed spec fn spec_min_note_number(&self) -> NoteNumberValue {
        self.min_note_number
    }

    /// The highest cached note index.
    pub closed spec fn spec_max_note_number(&self) -> NoteNumberValue {
        self.max_note_number
    }

    /// Queries the underlying temperament once for every index of
    /// `[min_note_number, max_note_number]` and stores the answers. Fails
    /// exactly when the range is inverted.
    pub fn new(temperament: T, min_note_number: NoteNumberValue, max_note_number: NoteNumberValue)
        -> (r: Result<Self, TemperamentError>)
        requires
            temperament.wf(),
            forall|note: int|
                min_note_number <= note <= max_note_number ==> temperament.in_range(note),
        ensures
            min_note_number > max_note_number <==> r == Err::<Self, TemperamentError>(
                TemperamentError::InvalidCacheRange,
            ),
            min_note_number <= max_note_number ==> {
                &&& r is Ok
                &&& r->Ok_0.wf()
                &&& r->Ok_0.spec_temperament() == temperament
                &&& r->Ok_0.spec_min_note_number() == min_note_number
                &&& r->Ok_0.spec_max_note_number() == max_note_number
            },
    {
        if min_note_number > max_note_number {
            return Err(TemperamentError::InvalidCacheRange);
        }
        let mut cache: Vec<PitchFactors> = Vec::new();
        let mut note: i32 = min_note_number as i32;
        while note <= max_note_number as i32
            invariant
                temperament.wf(),
                forall|k: int|
                    min_note_number <= k <= max_note_number ==> temperament.in_range(k),
                min_note_number <= max_note_number,
                min_note_number as int <= note as int <= max_note_number as int + 1,
                cache@.len() == note - min_note_number,
                forall|i: int|
                    0 <= i < cache@.len() ==> cache@[i] == temperament.spec_pitch(
                        min_note_number + i,
                    ),
            decreases max_note_number as int + 1 - note as int,
        {
            let factors = temperament.pitch(NoteNumber { value: note as NoteNumberValue });
            cache.push(factors);
            note = note + 1;
        }
        Ok(CachedTemperament { temperament, cache, min_note_number, max_note_number })
    }

    /// The underlying temperament.
    pub fn temperament(&self) -> (r: &T)
        ensures
            *r == self.spec_temperament(),
    {
        &self.temperament
    }

    /// The lowest cached note index.
    pub fn min_note_number(&self) -> (r: NoteNumberValue)
        ensures
            r == self.spec_min_note_number(),
    {
        self.min_note_number
    }

    /// The highest cached note index.
    pub fn max_note_number(&self) -> (r: NoteNumberValue)
        ensures
            r == self.spec_max_note_number(),
    {
        self.max_note_number
    }

    /// The stored answer for `note_number`: exactly what the underlying
    /// temperament answers for it. Fails exactly when the index lies
    /// outside the cached range.
    pub fn pitch_checked(&self, note_number: NoteNumber) -> (r: Result<
        PitchFactors,
        TemperamentError,
    >)
        requires
            self.wf(),
        ensures
            !self.in_range(note_number.value as int) <==> r == Err::<
                PitchFactors,
                TemperamentError,
            >(TemperamentError::NoteOutOfCacheRange),
            self.in_range(note_number.value as int) ==> r == Ok::<PitchFactors, TemperamentError>(
                self.spec_temperament().spec_pitch(note_number.value as int),
            ),
    {
        if note_number.value < self.min_note_number || note_number.value > self.max_note_number {
            return Err(TemperamentError::NoteOutOfCacheRange);
        }
        let index = (note_number.value as i32 - self.min_note_number as i32) as usize;
        Ok(self.cache[index])
    }
}

impl<T: Temperament> Temperament for CachedTemperament<T> {
    open spec fn wf(&self) -> bool {
        &&& self.spec_temperament().wf()
        &&& self.spec_min_note_number() <= self.spec_max_note_number()
        &&& self.spec_cache().len() == self.spec_max_note_number()
            - self.spec_min_note_number() + 1
        &&& forall|i: int|
            0 <= i < self.spec_cache().len() ==> self.spec_cache()[i]
                == self.spec_temperament().spec_pitch(self.spec_min_note_number() + i)
    }

    open spec fn in_range(&self, note: int) -> bool {
        self.spec_min_note_number() <= note <= self.spec_max_note_number()
    }

    open spec fn spec_pitch(&self, note: int) -> PitchFactors {
        self.spec_temperament().spec_pitch(note)
    }

    fn pitch(&self, note_number: NoteNumber) -> (r: PitchFactors) {
        let index = (note_number.value as i32 - self.min_note_number as i32) as usize;
        self.cache[index]
    }
}

} // verus!
