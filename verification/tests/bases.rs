use synthette::temperament::base::A4_FREQUENCY_BITS;
use synthette::temperament::base::CustomTemperamentBase;
use synthette::temperament::base::StandardTemperamentBase;
use synthette::temperament::note_number;
use synthette::temperament::TemperamentError;

/// The standard base's reference frequency, as the host derives it.
fn standard_base_frequency(note: i16) -> f32 {
    440.0f32 * 2.0f32.powf((note - note_number::A4) as f32 / 12.0)
}

#[test]
fn standard_base_at_a4_is_440() {
    let base = StandardTemperamentBase::new(note_number::A4);
    assert_eq!(base.note_number(), 69);
    assert_eq!(standard_base_frequency(base.note_number()), 440.0);
    assert_eq!(f32::from_bits(A4_FREQUENCY_BITS), 440.0);
}

#[test]
fn custom_base_stores_its_frequency() {
    let base = CustomTemperamentBase::new(60, 261.63f32.to_bits()).unwrap();
    assert_eq!(f32::from_bits(base.base_frequency_bits()), 261.63);
}

#[test]
fn custom_base_new_a4_anchors_at_69() {
    let base = CustomTemperamentBase::new_a4(432.0f32.to_bits()).unwrap();
    assert_eq!(f32::from_bits(base.base_frequency_bits()), 432.0);
}

#[test]
fn custom_base_rejects_negative_frequency() {
    let r = CustomTemperamentBase::new(69, (-1.0f32).to_bits());
    assert_eq!(r.unwrap_err(), TemperamentError::NonPositiveBaseFrequency);
}

#[test]
fn custom_base_rejects_zero_frequency() {
    let r = CustomTemperamentBase::new(69, 0.0f32.to_bits());
    assert_eq!(r.unwrap_err(), TemperamentError::NonPositiveBaseFrequency);
    let r = CustomTemperamentBase::new(69, (-0.0f32).to_bits());
    assert_eq!(r.unwrap_err(), TemperamentError::NonPositiveBaseFrequency);
}

#[test]
fn custom_base_rejects_infinite_frequency() {
    let r = CustomTemperamentBase::new(69, f32::INFINITY.to_bits());
    assert_eq!(r.unwrap_err(), TemperamentError::InfiniteBaseFrequency);
    let r = CustomTemperamentBase::new(69, f32::NEG_INFINITY.to_bits());
    assert_eq!(r.unwrap_err(), TemperamentError::NonPositiveBaseFrequency);
}

#[test]
fn custom_base_rejects_nan_frequency() {
    let r = CustomTemperamentBase::new(69, f32::NAN.to_bits());
    assert_eq!(r.unwrap_err(), TemperamentError::NanBaseFrequency);
}
