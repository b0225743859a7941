use audiostream::cpu::arm;
use audiostream::cpu::x86_64::{self, Cpuid, Feature, EBX, ECX, EDX};
use audiostream::cpu::{cpu_supports, parse_entry, parse_env_overrides, same_text, Entry, FeatureSet, Overrides};

const ALL: [Feature; 11] = [
    Feature::Baseline,
    Feature::MMX,
    Feature::SSE,
    Feature::SSE2,
    Feature::SSE3,
    Feature::SSSE3,
    Feature::SSE41,
    Feature::SSE42,
    Feature::OSXSAVE,
    Feature::AVX,
    Feature::AVX2,
];

/// A processor that reports nothing.
fn bare() -> Cpuid {
    Cpuid { leaf1: [0; 4], leaf7: [0; 4], xcr0: 0 }
}

/// A processor that reports everything.
fn full() -> Cpuid {
    Cpuid { leaf1: [!0; 4], leaf7: [!0; 4], xcr0: !0 }
}

/// A processor that reports one bit of leaf 1.
fn leaf1(reg: usize, bit: u32) -> Cpuid {
    let mut hw = bare();
    hw.leaf1[reg] = 1 << bit;
    hw
}

fn none() -> Overrides<Feature> {
    parse_env_overrides(None)
}

#[test]
fn override_string_wins_over_the_processor() {
    let overrides: Overrides<Feature> = parse_env_overrides(Some("+AVX,-SSE42"));
    assert_eq!(overrides.whitelist, vec![Feature::AVX]);
    assert_eq!(overrides.blacklist, vec![Feature::SSE42]);
    for hw in [bare(), full()] {
        assert_eq!(cpu_supports(Feature::AVX, &overrides, &hw), true);
        assert_eq!(cpu_supports(Feature::SSE42, &overrides, &hw), false);
    }
    // Unlisted features fall back to what the processor reports.
    assert_eq!(cpu_supports(Feature::SSE2, &overrides, &bare()), false);
    assert_eq!(cpu_supports(Feature::SSE2, &overrides, &full()), true);
    assert_eq!(cpu_supports(Feature::AVX2, &overrides, &bare()), false);
    assert_eq!(cpu_supports(Feature::AVX2, &overrides, &full()), true);
}

#[test]
fn whitelist_wins_over_blacklist() {
    for text in ["+AVX,-AVX", "-AVX,+AVX"] {
        let overrides: Overrides<Feature> = parse_env_overrides(Some(text));
        assert_eq!(overrides.whitelist, vec![Feature::AVX]);
        assert_eq!(overrides.blacklist, vec![Feature::AVX]);
        assert!(cpu_supports(Feature::AVX, &overrides, &bare()));
        assert!(cpu_supports(Feature::AVX, &overrides, &full()));
    }
}

#[test]
fn unset_variable_overrides_nothing() {
    let overrides = none();
    assert!(overrides.whitelist.is_empty());
    assert!(overrides.blacklist.is_empty());
    for feature in ALL {
        assert_eq!(cpu_supports(feature, &overrides, &full()), true);
        assert_eq!(cpu_supports(feature, &overrides, &bare()), feature == Feature::Baseline);
    }
}

#[test]
fn invalid_entries_are_skipped() {
    for text in ["", ",", ",,,", "AVX", "+", "-", "+-", "+BOGUS", "-avx", " +AVX", "+AVX ", "+Baseline", "-Baseline", "+NEON", "*AVX", "+AVX+", "AVX+", "é", "+SSE4.2"] {
        let overrides: Overrides<Feature> = parse_env_overrides(Some(text));
        assert!(overrides.whitelist.is_empty(), "{:?}", text);
        assert!(overrides.blacklist.is_empty(), "{:?}", text);
    }
}

#[test]
fn valid_entries_survive_among_invalid_ones() {
    let overrides: Overrides<Feature> =
        parse_env_overrides(Some(",+SSE,BOGUS,-MMX,,AVX,+SSE2,-x,-AVX2,+SSE,"));
    assert_eq!(overrides.whitelist, vec![Feature::SSE, Feature::SSE2, Feature::SSE]);
    assert_eq!(overrides.blacklist, vec![Feature::MMX, Feature::AVX2]);
}

#[test]
fn only_one_sign_is_a_sign() {
    for text in ["+-AVX", "-+SSE", "--MMX", "++SSE3", "+-+-SSSE3", "+-AVX,-+SSE,--MMX,++SSE3"] {
        let overrides: Overrides<Feature> = parse_env_overrides(Some(text));
        assert!(overrides.whitelist.is_empty(), "{:?}", text);
        assert!(overrides.blacklist.is_empty(), "{:?}", text);
    }
    let overrides: Overrides<Feature> = parse_env_overrides(Some("+-AVX,+AVX2,--MMX,-SSE"));
    assert_eq!(overrides.whitelist, vec![Feature::AVX2]);
    assert_eq!(overrides.blacklist, vec![Feature::SSE]);
    assert_eq!(cpu_supports(Feature::AVX, &overrides, &bare()), false);
    assert_eq!(cpu_supports(Feature::MMX, &overrides, &full()), true);
}

#[test]
fn entries_are_told_apart() {
    assert!(matches!(parse_entry::<Feature>("+AVX"), Entry::Enable(Feature::AVX)));
    assert!(matches!(parse_entry::<Feature>("-AVX2"), Entry::Disable(Feature::AVX2)));
    assert!(matches!(parse_entry::<Feature>("AVX"), Entry::MissingSign));
    assert!(matches!(parse_entry::<Feature>("+XYZ"), Entry::UnknownFeature));
    assert!(matches!(parse_entry::<Feature>("XYZ"), Entry::UnknownFeature));
    assert!(matches!(parse_entry::<Feature>(""), Entry::UnknownFeature));
    assert!(matches!(parse_entry::<Feature>("+"), Entry::UnknownFeature));
    assert!(matches!(parse_entry::<Feature>("-"), Entry::UnknownFeature));
    assert!(matches!(parse_entry::<Feature>("+-AVX"), Entry::UnknownFeature));
    assert!(matches!(parse_entry::<Feature>("-+AVX"), Entry::UnknownFeature));
    assert!(matches!(parse_entry::<Feature>("--AVX"), Entry::UnknownFeature));
    assert!(matches!(parse_entry::<Feature>("++AVX"), Entry::UnknownFeature));
    assert!(matches!(parse_entry::<Feature>("SSE42"), Entry::MissingSign));
    assert!(matches!(parse_entry::<Feature>("*AVX"), Entry::UnknownFeature));
    assert!(matches!(parse_entry::<arm::Feature>("+NEON"), Entry::Enable(arm::Feature::NEON)));
    assert!(matches!(parse_entry::<arm::Feature>("+AVX"), Entry::UnknownFeature));
}

#[test]
fn features_go_by_their_names() {
    let names = ["MMX", "SSE", "SSE2", "SSE3", "SSSE3", "SSE41", "SSE42", "OSXSAVE", "AVX", "AVX2"];
    for (name, feature) in names.iter().zip(ALL[1..].iter()) {
        assert_eq!(Feature::from_str(name), Some(*feature));
    }
    for name in ["", "Baseline", "mmx", "SSE4", "SSE421", "AVX512", "NEON", "AV", "AVX "] {
        assert_eq!(Feature::from_str(name), None);
    }
    assert_eq!(arm::Feature::from_str("NEON"), Some(arm::Feature::NEON));
    assert_eq!(arm::Feature::from_str("Baseline"), None);
    assert_eq!(arm::Feature::from_str("AVX"), None);
}

#[test]
fn same_text_compares_every_character() {
    assert!(same_text("", ""));
    assert!(same_text("AVX", "AVX"));
    assert!(!same_text("AVX", "AVX2"));
    assert!(!same_text("AVX2", "AVX"));
    assert!(!same_text("AVX", "AVY"));
    assert!(!same_text("aVX", "AVX"));
    assert!(same_text("héé", "héé"));
    assert!(!same_text("hée", "héé"));
}

#[test]
fn each_feature_is_its_bit() {
    let table = [
        (Feature::MMX, EDX, 23),
        (Feature::SSE, EDX, 25),
        (Feature::SSE2, EDX, 26),
        (Feature::SSE3, ECX, 0),
        (Feature::SSSE3, ECX, 9),
        (Feature::SSE41, ECX, 19),
        (Feature::SSE42, ECX, 20),
        (Feature::OSXSAVE, ECX, 27),
    ];
    for (feature, reg, bit) in table {
        let hw = leaf1(reg, bit);
        for other in ALL {
            let expected = other == feature || other == Feature::Baseline;
            assert_eq!(x86_64::cpu_supports(other, &hw), expected, "{:?} on {:?}", other, feature);
        }
        let mut without = full();
        without.leaf1[reg] = !(1 << bit);
        assert_eq!(x86_64::cpu_supports(feature, &without), false);
    }
    assert_eq!((EBX, ECX, EDX), (1, 2, 3));
}

#[test]
fn baseline_is_always_there() {
    assert!(x86_64::cpu_supports(Feature::Baseline, &bare()));
    assert!(arm::cpu_supports(arm::Feature::Baseline));
    assert!(cpu_supports(arm::Feature::Baseline, &parse_env_overrides(None), &()));
}

#[test]
fn avx_needs_the_operating_system() {
    let avx = |osxsave: bool, xcr0: u64, flag: bool| {
        let mut hw = bare();
        if osxsave {
            hw.leaf1[ECX] |= 1 << 27;
        }
        if flag {
            hw.leaf1[ECX] |= 1 << 28;
        }
        hw.xcr0 = xcr0;
        x86_64::cpu_supports(Feature::AVX, &hw)
    };
    assert_eq!(avx(true, 6, true), true);
    assert_eq!(avx(true, 7, true), true);
    assert_eq!(avx(true, !0, true), true);
    assert_eq!(avx(false, 6, true), false);
    assert_eq!(avx(true, 6, false), false);
    assert_eq!(avx(true, 0, true), false);
    assert_eq!(avx(true, 2, true), false);
    assert_eq!(avx(true, 4, true), false);
    assert_eq!(avx(true, !6, true), false);
}

#[test]
fn avx2_needs_avx() {
    let mut hw = bare();
    hw.leaf7[EBX] = 1 << 5;
    assert_eq!(x86_64::cpu_supports(Feature::AVX2, &hw), false);
    hw.leaf1[ECX] = (1 << 27) | (1 << 28);
    assert_eq!(x86_64::cpu_supports(Feature::AVX2, &hw), false);
    hw.xcr0 = 6;
    assert_eq!(x86_64::cpu_supports(Feature::AVX2, &hw), true);
    hw.leaf7[EBX] = !(1 << 5);
    assert_eq!(x86_64::cpu_supports(Feature::AVX2, &hw), false);
    assert_eq!(x86_64::cpu_supports(Feature::AVX, &hw), true);
    // Bit 5 of another register of leaf 7 is another matter.
    hw.leaf7 = [1 << 5, 0, 1 << 5, 1 << 5];
    assert_eq!(x86_64::cpu_supports(Feature::AVX2, &hw), false);
}

#[test]
fn arm_detects_the_baseline_only() {
    assert_eq!(arm::cpu_supports(arm::Feature::NEON), false);
    let none: Overrides<arm::Feature> = parse_env_overrides(None);
    assert_eq!(cpu_supports(arm::Feature::NEON, &none, &()), false);
    let forced: Overrides<arm::Feature> = parse_env_overrides(Some("+NEON"));
    assert_eq!(cpu_supports(arm::Feature::NEON, &forced, &()), true);
    let off: Overrides<arm::Feature> = parse_env_overrides(Some("-NEON,+AVX"));
    assert_eq!(off.blacklist, vec![arm::Feature::NEON]);
    assert!(off.whitelist.is_empty());
    assert_eq!(cpu_supports(arm::Feature::NEON, &off, &()), false);
}

#[test]
fn features_are_told_apart() {
    for a in ALL {
        for b in ALL {
            assert_eq!(a.same(b), a == b);
        }
        assert_eq!(a.detect(&full()), true);
    }
    assert!(arm::Feature::NEON.same(arm::Feature::NEON));
    assert!(!arm::Feature::NEON.same(arm::Feature::Baseline));
}
