use synthette::note::NoteNumber;
use synthette::temperament::base::CustomTemperamentBase;
use synthette::temperament::equal::EqualTemperament;
use synthette::temperament::CachedTemperament;
use synthette::temperament::Temperament;
use synthette::temperament::TemperamentError;

#[test]
fn cache_rejects_inverted_range() {
    let base = CustomTemperamentBase::new(60, 261.63f32.to_bits()).unwrap();
    let t = EqualTemperament::new(base, 12).unwrap();
    let r = CachedTemperament::new(t, 72, 60);
    assert_eq!(r.unwrap_err(), TemperamentError::InvalidCacheRange);
}

#[test]
fn cache_answers_exactly_what_the_underlying_temperament_does() {
    let base = CustomTemperamentBase::new(60, 261.63f32.to_bits()).unwrap();
    let t = EqualTemperament::new(base, 12).unwrap();
    let fresh = EqualTemperament::new(base, 12).unwrap();
    let cached = CachedTemperament::new(t, 60, 72).unwrap();
    assert_eq!(cached.min_note_number(), 60);
    assert_eq!(cached.max_note_number(), 72);
    for value in 60i16..=72 {
        let direct = fresh.pitch(NoteNumber { value });
        assert_eq!(cached.pitch_checked(NoteNumber { value }).unwrap(), direct);
        assert_eq!(cached.pitch(NoteNumber { value }), direct);
        let frequency = 261.63f32 * 2.0f32.powi(direct.period_exponent);
        let cached_frequency =
            261.63f32 * 2.0f32.powi(cached.pitch(NoteNumber { value }).period_exponent);
        assert_eq!(cached_frequency, frequency);
    }
}

#[test]
fn cache_rejects_lookups_outside_its_range() {
    let base = CustomTemperamentBase::new(60, 261.63f32.to_bits()).unwrap();
    let t = EqualTemperament::new(base, 12).unwrap();
    let cached = CachedTemperament::new(t, 60, 72).unwrap();
    assert_eq!(
        cached.pitch_checked(NoteNumber { value: 59 }).unwrap_err(),
        TemperamentError::NoteOutOfCacheRange
    );
    assert_eq!(
        cached.pitch_checked(NoteNumber { value: 73 }).unwrap_err(),
        TemperamentError::NoteOutOfCacheRange
    );
}

#[test]
fn cache_exposes_its_underlying_temperament() {
    let base = CustomTemperamentBase::new(60, 261.63f32.to_bits()).unwrap();
    let t = EqualTemperament::new(base, 12).unwrap();
    let cached = CachedTemperament::new(t, 60, 72).unwrap();
    let inner = cached.temperament();
    assert_eq!(inner.pitch(NoteNumber { value: 72 }).period_exponent, 1);
}

#[test]
fn cache_of_a_cache_still_answers_the_same() {
    let base = CustomTemperamentBase::new(60, 261.63f32.to_bits()).unwrap();
    let t = EqualTemperament::new(base, 12).unwrap();
    let inner = CachedTemperament::new(t, 48, 84).unwrap();
    let outer = CachedTemperament::new(inner, 60, 72).unwrap();
    let fresh = EqualTemperament::new(base, 12).unwrap();
    for value in 60i16..=72 {
        assert_eq!(outer.pitch(NoteNumber { value }), fresh.pitch(NoteNumber { value }));
    }
}
