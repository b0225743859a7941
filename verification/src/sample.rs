//! The numeric contract of one sample: its range, clipping and mixing.
//!
//! In every format the nominal range is the closed interval between the
//! format's `min` and `max`. An integer format is a fixed-point number whose
//! radix point is left-aligned: an `i8` sample runs from -128/128 to 127/128
//! in steps of 1/128. Such a format is *hard-clipped*: nothing outside the
//! nominal range can be written down in it. A *soft-clipped* format can hold
//! values outside the nominal range.

use vstd::prelude::*;

verus! {

/// `level` limited to the closed interval from `lo` to `hi`.
pub open spec fn clamp(level: int, lo: int, hi: int) -> int {
    if level < lo {
        lo
    } else if level > hi {
        hi
    } else {
        level
    }
}

/// The level of the mix of two samples whose levels are `a` and `b`, in a
/// format with the nominal range from `lo` to `hi`: their sum, limited to
/// that range where the format clips hard.
pub open spec fn mixed(hard: bool, lo: int, hi: int, a: int, b: int) -> int {
    if hard {
        clamp(a + b, lo, hi)
    } else {
        a + b
    }
}

/// Type bound for sample formats.
pub trait Sample: Copy + Sized {
    /// The number this sample stands for, counted in steps of the format.
    spec fn level(self) -> int;

    /// Upper end of the nominal range.
    spec fn max_level() -> int;

    /// Lower end of the nominal range.
    spec fn min_level() -> int;

    /// Whether the format cannot hold a value outside the nominal range.
    spec fn hard() -> bool;

    /// Silence lies within the nominal range of every format.
    proof fn range_holds_zero()
        ensures
            Self::min_level() <= 0 <= Self::max_level(),
    ;

    /// A hard-clipped format holds no value outside its nominal range.
    proof fn hard_stays_in_range(x: Self)
        ensures
            Self::hard() ==> Self::min_level() <= x.level() <= Self::max_level(),
    ;

    /// Maximum value of a valid sample.
    fn max() -> (r: Self)
        ensures
            r.level() == Self::max_level(),
    ;

    /// Minimum value of a valid sample.
    fn min() -> (r: Self)
        ensures
            r.level() == Self::min_level(),
    ;

    /// True if this format has a hard limit on values in range [min, max].
    ///
    /// If false, values outside this range can be held and used.
    fn clips_hard() -> (b: bool)
        ensures
            b == Self::hard(),
    ;

    /// Clip a value to be in range [min, max] (inclusive).
    fn clip(&self) -> (r: Self)
        ensures
            r.level() == clamp(self.level(), Self::min_level(), Self::max_level()),
    ;

    /// The sample whose level is `n`. There is one for every level of the
    /// nominal range, and a hard-clipped format has no other.
    fn from_usize(n: usize) -> (r: Option<Self>)
        ensures
            r is Some ==> r->0.level() == n,
            n <= Self::max_level() ==> r is Some,
            Self::hard() && n > Self::max_level() ==> r is None,
    ;

    /// The sum of two samples, or `None` where the sum lies outside the
    /// nominal range and the format clips hard.
    fn checked_add(&self, other: &Self) -> (r: Option<Self>)
        ensures
            r is Some ==> r->0.level() == self.level() + other.level(),
            r is None <==> Self::hard() && !(Self::min_level() <= self.level() + other.level()
                <= Self::max_level()),
    ;

    /// True if the sample lies above silence.
    fn is_positive(&self) -> (b: bool)
        ensures
            b == (self.level() > 0),
    ;

    /// Add two samples together, clipping if necessary (in hard-clipped
    /// formats).
    ///
    /// A sum that a hard-clipped format cannot hold lies beyond the end of
    /// the range on the side of `self`: the operands of such a sum share
    /// their sign.
    fn mix(&self, other: &Self) -> (r: Self)
        ensures
            r.level() == mixed(
                Self::hard(),
                Self::min_level(),
                Self::max_level(),
                self.level(),
                other.level(),
            ),
    {
        match self.checked_add(other) {
            Some(sum) => {
                proof {
                    Self::hard_stays_in_range(sum);
                }
                sum
            },
            None => {
                proof {
                    Self::hard_stays_in_range(*self);
                    Self::hard_stays_in_range(*other);
                }
                if self.is_positive() {
                    Self::max()
                } else {
                    Self::min()
                }
            },
        }
    }
}

/// `num::FromPrimitive::from_usize` for `i8`: the number itself where it is
/// at most `i8::MAX`, and `None` above that.
#[verifier::external_body]
fn i8_from_usize(n: usize) -> (r: Option<i8>)
    ensures
        n <= i8::MAX ==> r == Some(n as i8),
        n > i8::MAX ==> r is None,
{
    <i8 as num::FromPrimitive>::from_usize(n)
}

/// `num::FromPrimitive::from_usize` for `i16`: the number itself where it is
/// at most `i16::MAX`, and `None` above that.
#[verifier::external_body]
fn i16_from_usize(n: usize) -> (r: Option<i16>)
    ensures
        n <= i16::MAX ==> r == Some(n as i16),
        n > i16::MAX ==> r is None,
{
    <i16 as num::FromPrimitive>::from_usize(n)
}

/// `num::FromPrimitive::from_usize` for `i32`: the number itself where it is
/// at most `i32::MAX`, and `None` above that.
#[verifier::external_body]
fn i32_from_usize(n: usize) -> (r: Option<i32>)
    ensures
        n <= i32::MAX ==> r == Some(n as i32),
        n > i32::MAX ==> r is None,
{
    <i32 as num::FromPrimitive>::from_usize(n)
}

impl Sample for i8 {
    open spec fn level(self) -> int {
        self as int
    }

    open spec fn max_level() -> int {
        i8::MAX as int
    }

    open spec fn min_level() -> int {
        i8::MIN as int
    }

    open spec fn hard() -> bool {
        true
    }

    proof fn range_holds_zero() {
    }

    proof fn hard_stays_in_range(x: Self) {
    }

    #[inline]
    fn max() -> (r: i8) {
        i8::MAX
    }

    #[inline]
    fn min() -> (r: i8) {
        i8::MIN
    }

    #[inline]
    fn clips_hard() -> (b: bool) {
        true
    }

    #[inline]
    fn clip(&self) -> (r: i8) {
        if *self < <i8 as Sample>::min() {
            <i8 as Sample>::min()
        } else if *self > <i8 as Sample>::max() {
            <i8 as Sample>::max()
        } else {
            *self
        }
    }

    fn from_usize(n: usize) -> (r: Option<i8>) {
        i8_from_usize(n)
    }

    fn checked_add(&self, other: &i8) -> (r: Option<i8>) {
        i8::checked_add(*self, *other)
    }

    fn is_positive(&self) -> (b: bool) {
        *self > 0
    }
}

impl Sample for i16 {
    open spec fn level(self) -> int {
        self as int
    }

    open spec fn max_level() -> int {
        i16::MAX as int
    }

    open spec fn min_level() -> int {
        i16::MIN as int
    }

    open spec fn hard() -> bool {
        true
    }

    proof fn range_holds_zero() {
    }

    proof fn hard_stays_in_range(x: Self) {
    }

    #[inline]
    fn max() -> (r: i16) {
        i16::MAX
    }

    #[inline]
    fn min() -> (r: i16) {
        i16::MIN
    }

    #[inline]
    fn clips_hard() -> (b: bool) {
        true
    }

    #[inline]
    fn clip(&self) -> (r: i16) {
        if *self < <i16 as Sample>::min() {
            <i16 as Sample>::min()
        } else if *self > <i16 as Sample>::max() {
            <i16 as Sample>::max()
        } else {
            *self
        }
    }

    fn from_usize(n: usize) -> (r: Option<i16>) {
        i16_from_usize(n)
    }

    fn checked_add(&self, other: &i16) -> (r: Option<i16>) {
        i16::checked_add(*self, *other)
    }

    fn is_positive(&self) -> (b: bool) {
        *self > 0
    }
}

// Conspicuously missing: i24. Sign-extended to `i32` on input it is served by
// the format below.
impl Sample for i32 {
    open spec fn level(self) -> int {
        self as int
    }

    open spec fn max_level() -> int {
        i32::MAX as int
    }

    open spec fn min_level() -> int {
        i32::MIN as int
    }

    open spec fn hard() -> bool {
        true
    }

    proof fn range_holds_zero() {
    }

    proof fn hard_stays_in_range(x: Self) {
    }

    #[inline]
    fn max() -> (r: i32) {
        i32::MAX
    }

    #[inline]
    fn min() -> (r: i32) {
        i32::MIN
    }

    #[inline]
    fn clips_hard() -> (b: bool) {
        true
    }

    #[inline]
    fn clip(&self) -> (r: i32) {
        if *self < <i32 as Sample>::min() {
            <i32 as Sample>::min()
        } else if *self > <i32 as Sample>::max() {
            <i32 as Sample>::max()
        } else {
            *self
        }
    }

    fn from_usize(n: usize) -> (r: Option<i32>) {
        i32_from_usize(n)
    }

    fn checked_add(&self, other: &i32) -> (r: Option<i32>) {
        i32::checked_add(*self, *other)
    }

    fn is_positive(&self) -> (b: bool) {
        *self > 0
    }
}

/// Clipping twice is clipping once.
pub proof fn clip_is_idempotent<S: Sample>(x: S)
    ensures
        clamp(
            clamp(x.level(), S::min_level(), S::max_level()),
            S::min_level(),
            S::max_level(),
        ) == clamp(x.level(), S::min_level(), S::max_level()),
{
    S::range_holds_zero();
}

/// Clipping leaves a sample within the nominal range as it is.
pub proof fn clip_keeps_what_is_in_range<S: Sample>(x: S)
    requires
        S::min_level() <= x.level() <= S::max_level(),
    ensures
        clamp(x.level(), S::min_level(), S::max_level()) == x.level(),
{
}

} // verus!
