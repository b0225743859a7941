//! The features of 32-bit ARM processors.

use crate::cpu::{forced, same_text, split, supported, unnamed_is_as_detected, FeatureSet};
use vstd::prelude::*;

verus! {

/// What an ARM processor may offer.
#[derive(Clone, Copy, Debug, PartialEq, Eq, Structural)]
pub enum Feature {
    /// What every processor of the architecture has.
    Baseline,
    /// The Advanced SIMD extension.
    NEON,
}

/// The feature that goes by `name`.
pub open spec fn named(name: Seq<char>) -> Option<Feature> {
    if name == "NEON"@ {
        Some(Feature::NEON)
    } else {
        None
    }
}

/// What can be told of the processor without asking it: that it has the
/// baseline.
pub open spec fn detected(feature: Feature) -> bool {
    feature == Feature::Baseline
}

/// Returns `true` for what every ARM processor supports. Nothing is read
/// from the processor, so every other feature needs an override to count.
pub fn cpu_supports(feature: Feature) -> (b: bool)
    ensures
        b == detected(feature),
{
    match feature {
        Feature::Baseline => true,
        _ => false,
    }
}

impl FeatureSet for Feature {
    type Hardware = ();

    open spec fn named(name: Seq<char>) -> Option<Feature> {
        named(name)
    }

    open spec fn detected(self, hw: &()) -> bool {
        detected(self)
    }

    fn from_str(s: &str) -> (r: Option<Feature>) {
        if same_text(s, "NEON") {
            Some(Feature::NEON)
        } else {
            None
        }
    }

    fn same(self, other: Feature) -> (b: bool) {
        self == other
    }

    fn detect(self, hw: &()) -> (b: bool) {
        cpu_supports(self)
    }
}

/// The baseline is always supported: the processor has it, and no override
/// string can name it.
pub proof fn baseline_is_always_supported(s: Seq<char>)
    ensures
        supported(
            Feature::Baseline,
            forced::<Feature>(split(s, ','), false),
            forced::<Feature>(split(s, ','), true),
            &(),
        ),
{
    unnamed_is_as_detected(Feature::Baseline, s, &());
}

} // verus!
