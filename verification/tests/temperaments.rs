use synthette::temperament::base::StandardTemperamentBase;
use synthette::temperament::equal::EqualTemperament;
use synthette::temperament::equal_temperament_period_exponent;
use synthette::temperament::just::pythagorean;
use synthette::temperament::note_number;
use synthette::temperament::periodic::PeriodicTemperament;
use synthette::note::NoteNumber;
use synthette::temperament::PitchFactors;
use synthette::temperament::Temperament;
use synthette::temperament::TemperamentError;

/// The frequency an equal temperament's factors denote, for a given base
/// frequency: the period is an octave.
fn equal_frequency(base_frequency: f32, factors: PitchFactors) -> f32 {
    base_frequency * 2.0f32.powi(factors.period_exponent)
}

/// The frequency a periodic temperament's factors denote, for a given base
/// frequency and scale.
fn periodic_frequency(base_frequency: f32, scale: &[u32], factors: PitchFactors) -> f32 {
    let period = f32::from_bits(scale[scale.len() - 1]);
    base_frequency * period.powi(factors.period_exponent) * f32::from_bits(scale[factors.scale_index])
}

#[test]
fn equal_temperament_rejects_zero_divisions() {
    let base = StandardTemperamentBase::new(note_number::A4);
    let r = EqualTemperament::new(base, 0);
    assert_eq!(r.unwrap_err(), TemperamentError::InvalidDivisionCount);
}

#[test]
fn equal_temperament_octave_up_doubles() {
    let base = StandardTemperamentBase::new(note_number::A4);
    let t = EqualTemperament::new(base, 12).unwrap();
    let at_base = t.pitch(NoteNumber { value: 69 });
    let octave_up = t.pitch(NoteNumber { value: 81 });
    assert_eq!(at_base, PitchFactors { period_exponent: 0, scale_index: 0 });
    assert_eq!(octave_up, PitchFactors { period_exponent: 1, scale_index: 0 });
    assert_eq!(equal_frequency(440.0, at_base), 440.0);
    assert_eq!(equal_frequency(440.0, octave_up), 2.0 * equal_frequency(440.0, at_base));
}

#[test]
fn equal_temperament_division_truncates_toward_zero() {
    let base = StandardTemperamentBase::new(note_number::A4);
    let t = EqualTemperament::new(base, 12).unwrap();
    // Within the first period below the base the quotient truncates to
    // zero, so the whole period below the base answers the base frequency.
    assert_eq!(t.pitch(NoteNumber { value: 68 }).period_exponent, 0);
    assert_eq!(t.pitch(NoteNumber { value: 58 }).period_exponent, 0);
    assert_eq!(t.pitch(NoteNumber { value: 57 }).period_exponent, -1);
    assert_eq!(t.pitch(NoteNumber { value: 80 }).period_exponent, 0);
}

#[test]
fn period_exponent_helper_truncates_and_rejects_zero() {
    let base = NoteNumber { value: 69 };
    assert_eq!(
        equal_temperament_period_exponent(base, 0, NoteNumber { value: 69 }),
        Err(TemperamentError::InvalidDivisionCount)
    );
    assert_eq!(
        equal_temperament_period_exponent(base, 12, NoteNumber { value: 56 }),
        Ok(-1)
    );
    assert_eq!(
        equal_temperament_period_exponent(base, 12, NoteNumber { value: 93 }),
        Ok(2)
    );
}

#[test]
fn periodic_temperament_rejects_empty_scale() {
    let base = StandardTemperamentBase::new(note_number::A4);
    let r = PeriodicTemperament::new(base, vec![]);
    assert_eq!(r.unwrap_err(), TemperamentError::EmptyScale);
}

#[test]
fn periodic_temperament_rejects_first_ratio_not_above_one() {
    let base = StandardTemperamentBase::new(note_number::A4);
    let r = PeriodicTemperament::new(base, vec![1.0f32.to_bits(), 2.0f32.to_bits()]);
    assert_eq!(r.unwrap_err(), TemperamentError::FirstScaleRatioNotAboveOne);
}

#[test]
fn periodic_temperament_rejects_non_monotonic_scale() {
    let base = StandardTemperamentBase::new(note_number::A4);
    let r = PeriodicTemperament::new(
        base,
        vec![1.5f32.to_bits(), 1.2f32.to_bits(), 2.0f32.to_bits()],
    );
    assert_eq!(r.unwrap_err(), TemperamentError::NonMonotonicScale);
}

#[test]
fn periodic_temperament_accepts_ascending_scale() {
    let base = StandardTemperamentBase::new(note_number::A4);
    let t = PeriodicTemperament::new(
        base,
        vec![1.25f32.to_bits(), 1.5f32.to_bits(), 1.75f32.to_bits()],
    )
    .unwrap();
    assert!(!t.is_octave());
    assert_eq!(t.scale_length(), 3);
    assert_eq!(f32::from_bits(t.period()), 1.75);
}

#[test]
fn pythagorean_scale_holds_the_classic_ratios() {
    let base = StandardTemperamentBase::new(note_number::A4);
    let t = pythagorean(base);
    let expected: [f32; 12] = [
        256.0 / 243.0,
        9.0 / 8.0,
        32.0 / 27.0,
        81.0 / 64.0,
        4.0 / 3.0,
        729.0 / 512.0,
        3.0 / 2.0,
        128.0 / 81.0,
        27.0 / 16.0,
        16.0 / 9.0,
        243.0 / 128.0,
        2.0,
    ];
    assert_eq!(t.scale_length(), 12);
    for (i, want) in expected.iter().enumerate() {
        assert_eq!(f32::from_bits(t.scale()[i]), *want);
    }
    assert!(t.is_octave());
    assert_eq!(f32::from_bits(t.period()), 2.0);
}

#[test]
fn pythagorean_octaves_double_and_halve() {
    let base = StandardTemperamentBase::new(note_number::A4);
    let t = pythagorean(base);
    let at_base = t.pitch(NoteNumber { value: 69 });
    let octave_up = t.pitch(NoteNumber { value: 81 });
    let octave_down = t.pitch(NoteNumber { value: 57 });
    assert_eq!(at_base, PitchFactors { period_exponent: 0, scale_index: 0 });
    assert_eq!(octave_up, PitchFactors { period_exponent: 1, scale_index: 0 });
    assert_eq!(octave_down, PitchFactors { period_exponent: -1, scale_index: 0 });
    let scale = t.scale().as_slice();
    let f_base = periodic_frequency(440.0, scale, at_base);
    // The deployed formula applies the scale's first ratio at the base note
    // itself, so the base note answers 440 * 256/243, not 440.
    assert_eq!(f_base, 440.0 * (256.0f32 / 243.0f32));
    assert_eq!(periodic_frequency(440.0, scale, octave_up), 2.0 * f_base);
    assert_eq!(periodic_frequency(440.0, scale, octave_down), f_base / 2.0);
}

#[test]
fn periodic_remainder_wraps_far_negative_deltas() {
    let base = StandardTemperamentBase::new(note_number::A4);
    let t = pythagorean(base);
    // delta = -10 * 12 - 1
    let factors = t.pitch(NoteNumber { value: 69 - 121 });
    assert_eq!(factors.scale_index, 11);
    assert_eq!(factors.period_exponent, -11);
    for delta in -130i16..130 {
        let f = t.pitch(NoteNumber { value: 69 + delta });
        assert!(f.scale_index < 12);
        assert_eq!(delta as i32, f.period_exponent * 12 + f.scale_index as i32);
    }
}
