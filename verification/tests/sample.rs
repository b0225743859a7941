use audiostream::synth::silence;
use audiostream::Sample;

#[test]
fn test_impl_ranges() {
    // Implicit ranges
    assert_eq!(<i16 as Sample>::max(), 32767);
    assert_eq!(<i16 as Sample>::min(), -32768);
    assert_eq!(<i16 as Sample>::clips_hard(), true);
    assert_eq!(Sample::clip(&0i16), 0);
    assert_eq!(Sample::clip(&32767i16), 32767);

    assert_eq!(<i8 as Sample>::max(), 127);
    assert_eq!(<i8 as Sample>::min(), -128);
    assert_eq!(<i8 as Sample>::clips_hard(), true);
    assert_eq!(<i32 as Sample>::max(), 2147483647);
    assert_eq!(<i32 as Sample>::min(), -2147483648);
    assert_eq!(<i32 as Sample>::clips_hard(), true);
}

#[test]
fn clip_leaves_every_sample_of_a_hard_format() {
    for x in i8::MIN..=i8::MAX {
        assert_eq!(Sample::clip(&x), x);
        assert_eq!(Sample::clip(&Sample::clip(&x)), Sample::clip(&x));
    }
    for x in i16::MIN..=i16::MAX {
        assert_eq!(Sample::clip(&x), x);
    }
    for x in [i32::MIN, i32::MIN + 1, -1, 0, 1, i32::MAX - 1, i32::MAX] {
        assert_eq!(Sample::clip(&x), x);
        assert_eq!(Sample::clip(&Sample::clip(&x)), Sample::clip(&x));
    }
}

#[test]
fn mix_is_the_saturating_sum_for_every_pair_of_i8() {
    for a in i8::MIN..=i8::MAX {
        for b in i8::MIN..=i8::MAX {
            let sum = (a as i32 + b as i32).clamp(-128, 127) as i8;
            assert_eq!(Sample::mix(&a, &b), sum, "{} + {}", a, b);
            assert_eq!(Sample::mix(&a, &b), a.saturating_add(b));
        }
    }
}

#[test]
fn mix_is_the_saturating_sum_at_the_edges_of_i16() {
    let edges = [-32768i16, -32767, -16385, -16384, -16383, -2, -1, 0, 1, 2, 16383, 16384, 32766, 32767];
    for a in edges {
        for b in i16::MIN..=i16::MAX {
            let sum = (a as i32 + b as i32).clamp(-32768, 32767) as i16;
            assert_eq!(Sample::mix(&a, &b), sum, "{} + {}", a, b);
            assert_eq!(Sample::mix(&b, &a), sum, "{} + {}", b, a);
        }
    }
}

#[test]
fn mix_is_the_saturating_sum_at_the_edges_of_i32() {
    let edges = [i32::MIN, i32::MIN + 1, -1073741825, -1073741824, -1, 0, 1, 1073741823, 1073741824, i32::MAX - 1, i32::MAX];
    for a in edges {
        for b in edges {
            let sum = (a as i64 + b as i64).clamp(i32::MIN as i64, i32::MAX as i64) as i32;
            assert_eq!(Sample::mix(&a, &b), sum, "{} + {}", a, b);
        }
    }
    assert_eq!(Sample::mix(&2000000000i32, &2000000000i32), 2147483647);
    assert_eq!(Sample::mix(&-2000000000i32, &-2000000000i32), -2147483648);
    assert_eq!(Sample::mix(&2000000000i32, &-2000000000i32), 0);
}

#[test]
fn checked_add_fails_exactly_on_overflow() {
    assert_eq!(Sample::checked_add(&100i8, &27i8), Some(127));
    assert_eq!(Sample::checked_add(&100i8, &28i8), None);
    assert_eq!(Sample::checked_add(&-100i8, &-28i8), Some(-128));
    assert_eq!(Sample::checked_add(&-100i8, &-29i8), None);
    assert_eq!(Sample::checked_add(&32767i16, &1i16), None);
    assert_eq!(Sample::checked_add(&32767i16, &-1i16), Some(32766));
    assert_eq!(Sample::checked_add(&i32::MIN, &-1i32), None);
    assert_eq!(Sample::checked_add(&i32::MIN, &i32::MAX), Some(-1));
}

#[test]
fn is_positive_is_above_silence() {
    assert_eq!(Sample::is_positive(&1i8), true);
    assert_eq!(Sample::is_positive(&0i8), false);
    assert_eq!(Sample::is_positive(&-1i8), false);
    assert_eq!(Sample::is_positive(&i16::MAX), true);
    assert_eq!(Sample::is_positive(&i16::MIN), false);
    assert_eq!(Sample::is_positive(&0i32), false);
    assert_eq!(Sample::is_positive(&7i32), true);
}

#[test]
fn from_usize_holds_what_fits() {
    assert_eq!(<i8 as Sample>::from_usize(0), Some(0));
    assert_eq!(<i8 as Sample>::from_usize(5), Some(5));
    assert_eq!(<i8 as Sample>::from_usize(127), Some(127));
    assert_eq!(<i8 as Sample>::from_usize(128), None);
    assert_eq!(<i8 as Sample>::from_usize(usize::MAX), None);
    assert_eq!(<i16 as Sample>::from_usize(0), Some(0));
    assert_eq!(<i16 as Sample>::from_usize(32767), Some(32767));
    assert_eq!(<i16 as Sample>::from_usize(32768), None);
    assert_eq!(<i16 as Sample>::from_usize(65536), None);
    assert_eq!(<i32 as Sample>::from_usize(0), Some(0));
    assert_eq!(<i32 as Sample>::from_usize(2147483647), Some(2147483647));
    assert_eq!(<i32 as Sample>::from_usize(2147483648), None);
}

#[test]
fn silence_is_zero() {
    assert_eq!(silence::<i8>(), 0);
    assert_eq!(silence::<i16>(), 0);
    assert_eq!(silence::<i32>(), 0);
}
