//! The features of x86-64 processors, as the CPUID instruction reports them.

use crate::cpu::{forced, same_text, split, supported, unnamed_is_as_detected, FeatureSet};
use vstd::prelude::*;

verus! {

/// What an x86-64 processor may offer.
#[derive(Clone, Copy, Debug, PartialEq, Eq, Structural)]
pub enum Feature {
    /// What every processor of the architecture has.
    Baseline,
    MMX,
    SSE,
    SSE2,
    SSE3,
    SSSE3,
    SSE41,
    SSE42,
    /// The operating system saves the extended processor state.
    OSXSAVE,
    AVX,
    AVX2,
}

/// Place of EBX among the four registers that CPUID fills.
pub const EBX: usize = 1;

/// Place of ECX among the four registers that CPUID fills.
pub const ECX: usize = 2;

/// Place of EDX among the four registers that CPUID fills.
pub const EDX: usize = 3;

/// What was read from the processor.
pub struct Cpuid {
    /// EAX, EBX, ECX and EDX after CPUID with EAX = 1 and ECX = 0.
    pub leaf1: [u32; 4],
    /// EAX, EBX, ECX and EDX after CPUID with EAX = 7 and ECX = 0.
    pub leaf7: [u32; 4],
    /// Extended control register 0, as XGETBV gives it. The instruction is
    /// there only where `leaf1` reports OSXSAVE; elsewhere this is 0.
    pub xcr0: u64,
}

/// Whether bit number `bit` of `word` is set.
pub open spec fn has_bit(word: u32, bit: u32) -> bool {
    word & (1u32 << bit) != 0
}

/// Whether the operating system has switched on the saving of both the SSE
/// and the AVX registers.
pub open spec fn saves_avx_state(xcr0: u64) -> bool {
    xcr0 & 6 == 6
}

/// Whether `hw` reports `feature`.
///
/// Most features are one bit of CPUID. AVX also needs the operating system
/// to save its registers, which only an operating system with OSXSAVE says.
/// AVX2 needs all of AVX.
pub open spec fn detected(feature: Feature, hw: &Cpuid) -> bool {
    match feature {
        Feature::Baseline => true,
        Feature::MMX => has_bit(hw.leaf1[EDX as int], 23),
        Feature::SSE => has_bit(hw.leaf1[EDX as int], 25),
        Feature::SSE2 => has_bit(hw.leaf1[EDX as int], 26),
        Feature::SSE3 => has_bit(hw.leaf1[ECX as int], 0),
        Feature::SSSE3 => has_bit(hw.leaf1[ECX as int], 9),
        Feature::SSE41 => has_bit(hw.leaf1[ECX as int], 19),
        Feature::SSE42 => has_bit(hw.leaf1[ECX as int], 20),
        Feature::OSXSAVE => has_bit(hw.leaf1[ECX as int], 27),
        Feature::AVX => {
            &&& has_bit(hw.leaf1[ECX as int], 27)
            &&& saves_avx_state(hw.xcr0)
            &&& has_bit(hw.leaf1[ECX as int], 28)
        },
        Feature::AVX2 => {
            &&& has_bit(hw.leaf1[ECX as int], 27)
            &&& saves_avx_state(hw.xcr0)
            &&& has_bit(hw.leaf1[ECX as int], 28)
            &&& has_bit(hw.leaf7[EBX as int], 5)
        },
    }
}

/// How many other features the detection of `feature` asks for first.
pub open spec fn prerequisites(feature: Feature) -> nat {
    match feature {
        Feature::AVX2 => 2,
        Feature::AVX => 1,
        _ => 0,
    }
}

/// Tests one bit of one of the registers that CPUID filled.
fn flag(regs: &[u32; 4], reg: usize, bit: u32) -> (set: bool)
    requires
        reg < 4,
        bit < 32,
    ensures
        set == has_bit(regs[reg as int], bit),
{
    regs[reg] & (1u32 << bit) != 0
}

/// Returns `true` if `hw` reports `feature`.
pub fn cpu_supports(feature: Feature, hw: &Cpuid) -> (b: bool)
    ensures
        b == detected(feature, hw),
    decreases prerequisites(feature),
{
    match feature {
        Feature::Baseline => true,
        Feature::MMX => flag(&hw.leaf1, EDX, 23),
        Feature::SSE => flag(&hw.leaf1, EDX, 25),
        Feature::SSE2 => flag(&hw.leaf1, EDX, 26),
        Feature::SSE3 => flag(&hw.leaf1, ECX, 0),
        Feature::SSSE3 => flag(&hw.leaf1, ECX, 9),
        Feature::SSE41 => flag(&hw.leaf1, ECX, 19),
        Feature::SSE42 => flag(&hw.leaf1, ECX, 20),
        Feature::OSXSAVE => flag(&hw.leaf1, ECX, 27),
        Feature::AVX => {
            // Requires that OS support for XSAVE be in use and enabled for AVX
            cpu_supports(Feature::OSXSAVE, hw) && (hw.xcr0 & 6 == 6) && flag(&hw.leaf1, ECX, 28)
        },
        Feature::AVX2 => {
            // Need OS support for AVX and AVX2 feature flag
            cpu_supports(Feature::AVX, hw) && flag(&hw.leaf7, EBX, 5)
        },
    }
}

/// The feature that goes by `name`. `Baseline` goes by no name: it cannot be
/// overridden.
pub open spec fn named(name: Seq<char>) -> Option<Feature> {
    if name == "MMX"@ {
        Some(Feature::MMX)
    } else if name == "SSE"@ {
        Some(Feature::SSE)
    } else if name == "SSE2"@ {
        Some(Feature::SSE2)
    } else if name == "SSE3"@ {
        Some(Feature::SSE3)
    } else if name == "SSSE3"@ {
        Some(Feature::SSSE3)
    } else if name == "SSE41"@ {
        Some(Feature::SSE41)
    } else if name == "SSE42"@ {
        Some(Feature::SSE42)
    } else if name == "OSXSAVE"@ {
        Some(Feature::OSXSAVE)
    } else if name == "AVX"@ {
        Some(Feature::AVX)
    } else if name == "AVX2"@ {
        Some(Feature::AVX2)
    } else {
        None
    }
}

impl FeatureSet for Feature {
    type Hardware = Cpuid;

    open spec fn named(name: Seq<char>) -> Option<Feature> {
        named(name)
    }

    open spec fn detected(self, hw: &Cpuid) -> bool {
        detected(self, hw)
    }

    fn from_str(s: &str) -> (r: Option<Feature>) {
        if same_text(s, "MMX") {
            Some(Feature::MMX)
        } else if same_text(s, "SSE") {
            Some(Feature::SSE)
        } else if same_text(s, "SSE2") {
            Some(Feature::SSE2)
        } else if same_text(s, "SSE3") {
            Some(Feature::SSE3)
        } else if same_text(s, "SSSE3") {
            Some(Feature::SSSE3)
        } else if same_text(s, "SSE41") {
            Some(Feature::SSE41)
        } else if same_text(s, "SSE42") {
            Some(Feature::SSE42)
        } else if same_text(s, "OSXSAVE") {
            Some(Feature::OSXSAVE)
        } else if same_text(s, "AVX") {
            Some(Feature::AVX)
        } else if same_text(s, "AVX2") {
            Some(Feature::AVX2)
        } else {
            None
        }
    }

    fn same(self, other: Feature) -> (b: bool) {
        self == other
    }

    fn detect(self, hw: &Cpuid) -> (b: bool) {
        cpu_supports(self, hw)
    }
}

/// The baseline is always supported: the processor has it, and no override
/// string can name it.
pub proof fn baseline_is_always_supported(s: Seq<char>, hw: &Cpuid)
    ensures
        supported(
            Feature::Baseline,
            forced::<Feature>(split(s, ','), false),
            forced::<Feature>(split(s, ','), true),
            hw,
        ),
{
    unnamed_is_as_detected(Feature::Baseline, s, hw);
}

} // verus!
