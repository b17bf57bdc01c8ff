//! Periodic (scale-table) temperament: the period is divided by an
//! arbitrary ascending sequence of ratios, and need not be an octave.

use vstd::prelude::*;

use vstd::arithmetic::div_mod::lemma_div_nonincreasing;
use vstd::arithmetic::div_mod::lemma_div_pos_is_pos;
use vstd::arithmetic::div_mod::lemma_fundamental_div_mod;
use vstd::arithmetic::div_mod::lemma_fundamental_div_mod_converse;
use vstd::arithmetic::div_mod::lemma_mod_bound;

use crate::binary32;
use crate::note::NoteNumber;
use crate::temperament::PitchFactors;
use crate::temperament::Temperament;
use crate::temperament::TemperamentBase;
use crate::temperament::TemperamentError;

verus! {

/// A usable scale: non-empty, its first ratio compares greater than one,
/// and each later ratio compares greater than its predecessor. The
/// comparisons are the IEEE ones, so a NaN entry never fails them — exactly
/// as the deployed checks behave.
pub open spec fn spec_scale_ok(scale: Seq<u32>) -> bool {
    &&& scale.len() >= 1
    &&& !binary32::spec_value_le(scale[0], binary32::ONE_BITS)
    &&& forall|i: int|
        1 <= i < scale.len() ==> !binary32::spec_value_le(#[trigger] scale[i], scale[i - 1])
}

/// The non-negative remainder of `delta` within a scale of length `n`:
/// which ratio of the scale the note falls on.
pub open spec fn spec_scale_remainder(delta: int, n: int) -> int {
    delta % n
}

/// How many whole periods separate `delta` from the base once the remainder
/// is taken out; exact, positive or negative.
pub open spec fn spec_period_count(delta: int, n: int) -> int {
    (delta - delta % n) / n
}

/// The remainder always lands in `[0, n)`, however negative `delta` is, and
/// together with the period count it reassembles `delta` exactly; moving
/// `delta` one whole scale length up keeps the remainder and raises the
/// period count by one.
pub proof fn lemma_periodic_decomposition(delta: int, n: int)
    requires
        n >= 1,
    ensures
        0 <= spec_scale_remainder(delta, n) < n,
        delta == spec_period_count(delta, n) * n + spec_scale_remainder(delta, n),
        spec_period_count(delta, n) == delta / n,
        spec_scale_remainder(delta + n, n) == spec_scale_remainder(delta, n),
        spec_period_count(delta + n, n) == spec_period_count(delta, n) + 1,
{
    lemma_fundamental_div_mod(delta, n);
    lemma_mod_bound(delta, n);
    let q = delta / n;
    let r = delta % n;
    assert(delta - r == q * n + 0) by (nonlinear_arith)
        requires
            delta == n * q + r,
    ;
    lemma_fundamental_div_mod_converse(delta - r, n, q, 0);
    assert(delta + n == (q + 1) * n + r) by (nonlinear_arith)
        requires
            delta == n * q + r,
    ;
    lemma_fundamental_div_mod_converse(delta + n, n, q + 1, r);
    assert((delta + n) - r == (q + 1) * n + 0) by (nonlinear_arith)
        requires
            delta == n * q + r,
    ;
    lemma_fundamental_div_mod_converse((delta + n) - r, n, q + 1, 0);
}

/// How the Euclidean quotient and remainder of `-m` follow from those of a
/// non-negative `m`.
proof fn lemma_neg_decompose(m: int, n: int)
    requires
        n >= 1,
        m >= 0,
    ensures
        m % n == 0 ==> (-m) / n == -(m / n) && (-m) % n == 0,
        m % n != 0 ==> (-m) / n == -(m / n) - 1 && (-m) % n == n - m % n,
{
    lemma_fundamental_div_mod(m, n);
    lemma_mod_bound(m, n);
    let q = m / n;
    let r = m % n;
    if r == 0 {
        assert(-m == (-q) * n + 0) by (nonlinear_arith)
            requires
                m == n * q + r,
                r == 0,
        ;
        lemma_fundamental_div_mod_converse(-m, n, -q, 0);
    } else {
        assert(-m == (-q - 1) * n + (n - r)) by (nonlinear_arith)
            requires
                m == n * q + r,
        ;
        lemma_fundamental_div_mod_converse(-m, n, -q - 1, n - r);
    }
}

/// One whole scale length above any note, a periodic temperament answers
/// the same scale position with one more period: the frequency there is the
/// frequency at the note, multiplied by the period ratio (halved below, for
/// a step down). With an octave scale that is the classic doubling.
pub proof fn lemma_periodic_temperament_octave<Base: TemperamentBase>(
    t: PeriodicTemperament<Base>,
    note: int,
)
    requires
        t.wf(),
        i16::MIN <= note,
        note + t.spec_scale().len() <= i16::MAX,
    ensures
        t.spec_pitch(note + t.spec_scale().len()).scale_index == t.spec_pitch(note).scale_index,
        t.spec_pitch(note + t.spec_scale().len()).period_exponent == t.spec_pitch(
            note,
        ).period_exponent + 1,
{
    let base = t.spec_base().spec_base_note_number() as int;
    let delta = note - base;
    let n = t.spec_scale().len() as int;
    lemma_periodic_decomposition(delta, n);
    let q = spec_period_count(delta, n);
    let r = spec_scale_remainder(delta, n);
    if delta >= 0 {
        lemma_div_pos_is_pos(delta, n);
        lemma_div_nonincreasing(delta, n);
    } else {
        assert(delta <= q <= 0) by (nonlinear_arith)
            requires
                delta == q * n + r,
                0 <= r < n,
                n >= 1,
                delta < 0,
        ;
    }
}

/// A temperament whose scale is an explicit ascending table of frequency
/// ratios (bit patterns of the host's `f32` values), repeating at the last
/// ratio — the period, conventionally 2 but not required to be.
#[derive(Debug)]
pub struct PeriodicTemperament<Base: TemperamentBase> {
    base_note: Base,
    scale: Vec<u32>,
    is_octave: bool,
}

impl<Base: TemperamentBase> PeriodicTemperament<Base> {
    /// The base the temperament is anchored at.
    pub closed spec fn spec_base(&self) -> Base {
        self.base_note
    }

    /// The scale's ratios, as bit patterns.
    pub closed spec fn spec_scale(&self) -> Seq<u32> {
        self.scale@
    }

    /// Whether the scale's period is exactly an octave (last ratio 2).
    pub closed spec fn spec_is_octave(&self) -> bool {
        self.is_octave
    }

    /// Validates the scale, and derives whether it spans an octave. Each way
    /// a scale can be unusable is its own error, checked in this order:
    /// emptiness, the first ratio, monotonicity.
    pub fn new(base_note: Base, scale: Vec<u32>) -> (r: Result<Self, TemperamentError>)
        ensures
            scale@.len() == 0 <==> r == Err::<Self, TemperamentError>(
                TemperamentError::EmptyScale,
            ),
            (scale@.len() >= 1 && binary32::spec_value_le(scale@[0], binary32::ONE_BITS)) <==> r
                == Err::<Self, TemperamentError>(TemperamentError::FirstScaleRatioNotAboveOne),
            (scale@.len() >= 1 && !binary32::spec_value_le(scale@[0], binary32::ONE_BITS)
                && exists|i: int|
                1 <= i < scale@.len() && binary32::spec_value_le(
                    #[trigger] scale@[i],
                    scale@[i - 1],
                )) <==> r == Err::<Self, TemperamentError>(TemperamentError::NonMonotonicScale),
            r is Ok <==> spec_scale_ok(scale@),
            r is Ok ==> {
                &&& r->Ok_0.wf()
                &&& r->Ok_0.spec_base() == base_note
                &&& r->Ok_0.spec_scale() == scale@
                &&& r->Ok_0.spec_is_octave() == binary32::spec_value_eq(
                    scale@[scale@.len() - 1],
                    binary32::TWO_BITS,
                )
            },
    {
        let len = scale.len();
        if len < 1 {
            return Err(TemperamentError::EmptyScale);
        }
        if binary32::value_le(scale[0], binary32::ONE_BITS) {
            return Err(TemperamentError::FirstScaleRatioNotAboveOne);
        }
        let mut i: usize = 1;
        while i < len
            invariant
                1 <= i <= len,
                len == scale@.len(),
                !binary32::spec_value_le(scale@[0], binary32::ONE_BITS),
                forall|j: int|
                    1 <= j < i ==> !binary32::spec_value_le(#[trigger] scale@[j], scale@[j - 1]),
            decreases len - i,
        {
            if binary32::value_le(scale[i], scale[i - 1]) {
                return Err(TemperamentError::NonMonotonicScale);
            }
            i = i + 1;
        }
        let is_octave = binary32::value_eq(scale[len - 1], binary32::TWO_BITS);
        Ok(PeriodicTemperament { base_note, scale, is_octave })
    }

    /// The base the temperament is anchored at.
    pub fn base(&self) -> (r: &Base)
        ensures
            *r == self.spec_base(),
    {
        &self.base_note
    }

    /// The scale's ratios, as bit patterns.
    pub fn scale(&self) -> (r: &Vec<u32>)
        ensures
            r@ == self.spec_scale(),
    {
        &self.scale
    }

    /// Whether the scale's period is exactly an octave.
    pub fn is_octave(&self) -> (r: bool)
        ensures
            r == self.spec_is_octave(),
    {
        self.is_octave
    }

    /// The ratio at which the scale repeats: its last entry.
    pub fn period(&self) -> (r: u32)
        requires
            self.wf(),
        ensures
            r == self.spec_scale()[self.spec_scale().len() - 1],
    {
        self.scale[self.scale.len() - 1]
    }

    /// How many ratios the scale holds.
    pub fn scale_length(&self) -> (r: usize)
        ensures
            r == self.spec_scale().len(),
    {
        self.scale.len()
    }
}

impl<Base: TemperamentBase> Temperament for PeriodicTemperament<Base> {
    open spec fn wf(&self) -> bool {
        spec_scale_ok(self.spec_scale())
    }

    open spec fn in_range(&self, note: int) -> bool {
        true
    }

    open spec fn spec_pitch(&self, note: int) -> PitchFactors {
        let delta = note - self.spec_base().spec_base_note_number();
        let n = self.spec_scale().len() as int;
        PitchFactors {
            period_exponent: spec_period_count(delta, n) as i32,
            scale_index: spec_scale_remainder(delta, n) as usize,
        }
    }

    /// Besides answering what the specification says, the answer's scale
    /// index always lies inside the scale, and the factors reassemble the
    /// note-index delta exactly.
    fn pitch(&self, note_number: NoteNumber) -> (r: PitchFactors)
        ensures
            r.scale_index < self.spec_scale().len(),
            note_number.value - self.spec_base().spec_base_note_number() == r.period_exponent
                * self.spec_scale().len() + r.scale_index,
    {
        let base_note_number = self.base_note.base_note_number();
        let delta: i32 = note_number.value as i32 - base_note_number.value as i32;
        let n = self.scale.len();
        proof {
            lemma_periodic_decomposition(delta as int, n as int);
        }
        if delta >= 0 {
            let d = delta as usize;
            let quotient = d / n;
            let remainder = d % n;
            proof {
                lemma_div_nonincreasing(d as int, n as int);
                lemma_mod_bound(d as int, n as int);
            }
            PitchFactors { period_exponent: quotient as i32, scale_index: remainder }
        } else {
            let m = (-delta) as usize;
            let quotient = m / n;
            let remainder = m % n;
            proof {
                lemma_div_nonincreasing(m as int, n as int);
                lemma_div_pos_is_pos(m as int, n as int);
                lemma_mod_bound(m as int, n as int);
                lemma_neg_decompose(m as int, n as int);
            }
            if remainder == 0 {
                PitchFactors { period_exponent: -(quotient as i32), scale_index: 0 }
            } else {
                PitchFactors {
                    period_exponent: -(quotient as i32) - 1,
                    scale_index: n - remainder,
                }
            }
        }
    }
}

} // verus!
