//! Just-intonation scales: the classic Pythagorean tuning as a periodic
//! temperament.

use vstd::prelude::*;

use crate::binary32;
use crate::temperament::periodic::spec_scale_ok;
use crate::temperament::periodic::PeriodicTemperament;
use crate::temperament::Temperament;
use crate::temperament::TemperamentBase;

verus! {

/// How many steps the 12-tone scales divide the octave into.
pub const TONES_IN_OCTAVE: usize = 12;

/// The 12-step Pythagorean scale: the ratios
/// 256/243, 9/8, 32/27, 81/64, 4/3, 729/512, 3/2, 128/81, 27/16, 16/9,
/// 243/128 and 2, each as the bit pattern of its nearest `f32`.
pub open spec fn spec_pythagorean_scale() -> Seq<u32> {
    seq![
        0x3f86_d905u32,
        0x3f90_0000u32,
        0x3f97_b426u32,
        0x3fa2_0000u32,
        0x3faa_aaabu32,
        0x3fb6_4000u32,
        0x3fc0_0000u32,
        0x3fca_4588u32,
        0x3fd8_0000u32,
        0x3fe3_8e39u32,
        0x3ff3_0000u32,
        0x4000_0000u32,
    ]
}

/// The Pythagorean ratios do ascend from above one to exactly two.
proof fn lemma_pythagorean_scale_ok()
    ensures
        spec_scale_ok(spec_pythagorean_scale()),
        binary32::spec_value_eq(
            spec_pythagorean_scale()[spec_pythagorean_scale().len() - 1],
            binary32::TWO_BITS,
        ),
{
    let s = spec_pythagorean_scale();
    assert forall|i: int|
        1 <= i < s.len() implies !binary32::spec_value_le(#[trigger] s[i], s[i - 1]) by {
        if i == 1 {
            assert(!binary32::spec_value_le(s[1], s[0]));
        } else if i == 2 {
            assert(!binary32::spec_value_le(s[2], s[1]));
        } else if i == 3 {
            assert(!binary32::spec_value_le(s[3], s[2]));
        } else if i == 4 {
            assert(!binary32::spec_value_le(s[4], s[3]));
        } else if i == 5 {
            assert(!binary32::spec_value_le(s[5], s[4]));
        } else if i == 6 {
            assert(!binary32::spec_value_le(s[6], s[5]));
        } else if i == 7 {
            assert(!binary32::spec_value_le(s[7], s[6]));
        } else if i == 8 {
            assert(!binary32::spec_value_le(s[8], s[7]));
        } else if i == 9 {
            assert(!binary32::spec_value_le(s[9], s[8]));
        } else if i == 10 {
            assert(!binary32::spec_value_le(s[10], s[9]));
        } else {
            assert(!binary32::spec_value_le(s[11], s[10]));
        }
    }
    assert(!binary32::spec_value_le(s[0], binary32::ONE_BITS));
    assert(binary32::spec_value_eq(s[11], binary32::TWO_BITS));
}

/// The Pythagorean temperament over `base`: a periodic temperament with the
/// 12-step Pythagorean scale, whose period is an octave.
pub fn pythagorean<Base: TemperamentBase>(base: Base) -> (r: PeriodicTemperament<Base>)
    ensures
        r.wf(),
        r.spec_base() == base,
        r.spec_scale() == spec_pythagorean_scale(),
        r.spec_is_octave(),
        r.spec_scale().len() == TONES_IN_OCTAVE,
{
    let mut scale: Vec<u32> = Vec::new();
    scale.push(0x3f86_d905);
    scale.push(0x3f90_0000);
    scale.push(0x3f97_b426);
    scale.push(0x3fa2_0000);
    scale.push(0x3faa_aaab);
    scale.push(0x3fb6_4000);
    scale.push(0x3fc0_0000);
    scale.push(0x3fca_4588);
    scale.push(0x3fd8_0000);
    scale.push(0x3fe3_8e39);
    scale.push(0x3ff3_0000);
    scale.push(0x4000_0000);
    proof {
        assert(scale@ =~= spec_pythagorean_scale());
        lemma_pythagorean_scale_ok();
    }
    match PeriodicTemperament::new(base, scale) {
        Ok(t) => t,
        Err(_) => vstd::pervasive::unreached(),
    }
}

} // verus!
