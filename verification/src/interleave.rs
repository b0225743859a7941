//! Interleaving of channel-major buffers.
//!
//! Interleaving two channels `[a0, a1, a2]` and `[b0, b1, b2]` yields
//! `[a0, b0, a1, b1, a2, b2]`. Buffers travel through a pipeline one
//! contiguous run per channel, while most output formats expect an
//! interleaved stream.

use crate::cpu::arm;
use crate::cpu::x86_64;
use crate::cpu::{cpu_supports, supported, FeatureSet, Overrides};
use vstd::prelude::*;

verus! {

/// The samples behind a list of channels, one sequence per channel.
pub open spec fn planes<T>(channels: Seq<&[T]>) -> Seq<Seq<T>> {
    Seq::new(channels.len(), |c: int| channels[c]@)
}

/// A channel-major buffer holds at least one channel, and all its channels
/// have the same length.
pub open spec fn channel_major<T>(channels: Seq<Seq<T>>) -> bool {
    &&& channels.len() > 0
    &&& forall|c: int| 0 <= c < channels.len() ==> (#[trigger] channels[c]).len() == channels[0].len()
}

/// What may be interleaved into an output of `out_len` samples: a
/// channel-major buffer that holds exactly as many.
pub open spec fn valid<T>(channels: Seq<Seq<T>>, out_len: nat) -> bool {
    &&& channel_major(channels)
    &&& channels[0].len() * channels.len() == out_len
}

/// The interleaved order of a channel-major buffer: sample 0 of every
/// channel, then sample 1 of every channel, and so on. With `n` channels,
/// position `k` holds sample `k / n` of channel `k % n`.
pub open spec fn interleaved<T>(channels: Seq<Seq<T>>) -> Seq<T> {
    Seq::new(
        channels[0].len() * channels.len(),
        |k: int| channels[k % (channels.len() as int)][k / (channels.len() as int)],
    )
}

/// Where position `k` of the interleaved order comes from: a channel that
/// exists and a sample within it.
pub proof fn position_is_in_bounds(channels: int, frames: int, k: int)
    requires
        channels > 0,
        0 <= k < frames * channels,
    ensures
        0 <= k % channels < channels,
        0 <= k / channels < frames,
{
    assert(0 <= k % channels < channels);
    assert(0 <= k / channels < frames) by (nonlinear_arith)
        requires
            channels > 0,
            0 <= k < frames * channels,
    ;
}

/// The interleaved order holds every sample of every channel: with `n`
/// channels, position `k` holds sample `k / n` of channel `k % n`, both of
/// which exist.
pub proof fn interleaved_holds_each_sample<T>(channels: Seq<Seq<T>>, k: int)
    requires
        channel_major(channels),
        0 <= k < channels[0].len() * channels.len(),
    ensures
        interleaved(channels).len() == channels[0].len() * channels.len(),
        0 <= k % (channels.len() as int) < channels.len(),
        0 <= k / (channels.len() as int) < channels[k % (channels.len() as int)].len(),
        interleaved(channels)[k] == channels[k % (channels.len() as int)][k / (channels.len() as int)],
{
    position_is_in_bounds(channels.len() as int, channels[0].len() as int, k);
}

/// The generic, always-correct path: walks the output and fetches each
/// sample from its channel.
pub fn interleave_arbitrary<T: Copy>(channels: &[&[T]], out: &mut [T])
    requires
        valid(planes(channels@), old(out)@.len()),
    ensures
        final(out)@ == interleaved(planes(channels@)),
{
    let width = channels.len();
    let total = out.len();
    let ghost frames = channels@[0]@.len() as int;
    let mut i: usize = 0;
    while i < total
        invariant
            width == channels@.len(),
            total == out@.len(),
            frames == channels@[0]@.len(),
            valid(planes(channels@), total as nat),
            i <= total,
            forall|k: int|
                0 <= k < i ==> out@[k] == (#[trigger] interleaved(planes(channels@))[k]),
        decreases total - i,
    {
        proof {
            position_is_in_bounds(width as int, frames, i as int);
            assert(planes(channels@)[i as int % width as int].len() == frames);
        }
        out[i] = channels[i % width][i / width];
        i += 1;
    }
    assert(out@ =~= interleaved(planes(channels@)));
}

/// The code path that interleaves, chosen once from what the processor
/// offers.
#[derive(Clone, Copy, Debug, PartialEq, Eq, Structural)]
pub enum Kernel {
    /// One sample at a time, for any number of channels.
    Scalar,
    /// Whole chunks at a time where a format has such a path, one sample at
    /// a time elsewhere.
    Vector,
}

impl Kernel {
    /// The path for an x86-64 processor whose best feature is `best`: the
    /// chunked one with AVX.
    pub fn for_x86_64(best: x86_64::Feature) -> (kernel: Kernel)
        ensures
            kernel == if best == x86_64::Feature::AVX {
                Kernel::Vector
            } else {
                Kernel::Scalar
            },
    {
        match best {
            x86_64::Feature::AVX => Kernel::Vector,
            _ => Kernel::Scalar,
        }
    }

    /// The path for an ARM processor whose best feature is `best`: the
    /// chunked one with NEON.
    pub fn for_arm(best: arm::Feature) -> (kernel: Kernel)
        ensures
            kernel == if best == arm::Feature::NEON {
                Kernel::Vector
            } else {
                Kernel::Scalar
            },
    {
        match best {
            arm::Feature::NEON => Kernel::Vector,
            _ => Kernel::Scalar,
        }
    }
}

/// The features that interleaving has a path for on x86-64, best first.
pub fn x86_64_features() -> (features: [x86_64::Feature; 2])
    ensures
        features@ == seq![x86_64::Feature::AVX, x86_64::Feature::Baseline],
{
    [x86_64::Feature::AVX, x86_64::Feature::Baseline]
}

/// The features that interleaving has a path for on ARM, best first.
pub fn arm_features() -> (features: [arm::Feature; 2])
    ensures
        features@ == seq![arm::Feature::NEON, arm::Feature::Baseline],
{
    [arm::Feature::NEON, arm::Feature::Baseline]
}

/// Whether `best` is the first of `features` that counts as supported.
pub open spec fn is_first_supported<A: FeatureSet>(
    best: A,
    features: Seq<A>,
    blacklist: Seq<A>,
    whitelist: Seq<A>,
    hw: &A::Hardware,
) -> bool {
    exists|k: int|
        {
            &&& 0 <= k < features.len()
            &&& #[trigger] features[k] == best
            &&& supported(best, blacklist, whitelist, hw)
            &&& forall|j: int| 0 <= j < k ==> !supported(#[trigger] features[j], blacklist, whitelist, hw)
        }
}

/// The best feature that the processor supports: the first of `features`,
/// which are given best first, that counts as supported.
///
/// One of them has to: a list that ends with the baseline of its
/// architecture, which every processor has and no override string can
/// name, meets this.
pub fn prioritize_features<A: FeatureSet>(
    features: &[A],
    overrides: &Overrides<A>,
    hw: &A::Hardware,
) -> (best: A)
    requires
        exists|k: int|
            0 <= k < features@.len() && supported(
                #[trigger] features@[k],
                overrides.blacklist@,
                overrides.whitelist@,
                hw,
            ),
    ensures
        is_first_supported(best, features@, overrides.blacklist@, overrides.whitelist@, hw),
{
    let mut i: usize = 0;
    loop
        invariant
            i < features@.len(),
            forall|j: int|
                0 <= j < i ==> !supported(
                    #[trigger] features@[j],
                    overrides.blacklist@,
                    overrides.whitelist@,
                    hw,
                ),
            exists|k: int|
                0 <= k < features@.len() && supported(
                    #[trigger] features@[k],
                    overrides.blacklist@,
                    overrides.whitelist@,
                    hw,
                ),
        decreases features@.len() - i,
    {
        let feature = features[i];
        if cpu_supports(feature, overrides, hw) {
            return feature;
        }
        i += 1;
    }
}

/// Types which can be interleaved.
pub trait Interleave: Copy {
    /// Interleaves all channels in `channels` into `out`.
    ///
    /// Whatever was in `out` is overwritten. The result does not depend on
    /// `kernel`, which only selects how it is computed.
    fn interleave(kernel: Kernel, channels: &[&[Self]], out: &mut [Self])
        requires
            valid(planes(channels@), old(out)@.len()),
        ensures
            final(out)@ == interleaved(planes(channels@)),
    {
        Self::validate(channels, out);
        interleave_arbitrary(channels, out)
    }

    /// Convenience method to sanity check parameters.
    ///
    /// All channels must be the same length and the length of `out` must be
    /// the product of the number of channels and the length of each: that is
    /// asked of the caller. Whoever calls without Verus to hold them to it is
    /// stopped here, before any sample is written.
    ///
    /// This function shouldn't be needed for external users; only for
    /// implementations of this trait.
    fn validate(channels: &[&[Self]], out: &[Self])
        requires
            valid(planes(channels@), out@.len()),
    {
        if !Self::fits(channels, out) {
            vstd::pervasive::unreached()
        }
    }

    /// Whether `channels` may be interleaved into `out`: there is at least one
    /// channel, all channels are the same length, and the length of `out` is the
    /// product of the number of channels and the length of each.
    fn fits(channels: &[&[Self]], out: &[Self]) -> (ok: bool)
        ensures
            ok == valid(planes(channels@), out@.len()),
    {
        if channels.len() == 0 {
            return false;
        }
        let len = channels[0].len();
        let mut c: usize = 1;
        while c < channels.len()
            invariant
                1 <= c <= channels@.len(),
                len == channels@[0]@.len(),
                forall|d: int| 0 <= d < c ==> (#[trigger] planes(channels@)[d]).len() == len,
            decreases channels@.len() - c,
        {
            if channels[c].len() != len {
                assert(planes(channels@)[c as int].len() != len);
                return false;
            }
            c += 1;
        }
        assert(channel_major(planes(channels@)));
        assert(planes(channels@)[0].len() * planes(channels@).len() == len * channels@.len());
        assert(out@.len() == out.len());
        match len.checked_mul(channels.len()) {
            Some(total) => total == out.len(),
            None => false,
        }
    }
}

/// Samples of each channel that the chunked path takes at a time.
pub const CHUNK: usize = 8;

/// Interleaves the `CHUNK` samples of `xs` and of `ys` that start at `at`
/// into the `2 * CHUNK` samples of `zs` that start at `2 * at`.
fn zip_chunk(xs: &[i16], ys: &[i16], zs: &mut [i16], at: usize)
    requires
        xs@.len() == ys@.len(),
        at + CHUNK <= xs@.len(),
        2 * at + 2 * CHUNK <= old(zs)@.len(),
    ensures
        final(zs)@.len() == old(zs)@.len(),
        forall|k: int|
            0 <= k < final(zs)@.len() ==> #[trigger] final(zs)@[k] == if 2 * at <= k < 2 * (at
                + CHUNK) {
                if k % 2 == 0 {
                    xs@[k / 2]
                } else {
                    ys@[k / 2]
                }
            } else {
                old(zs)@[k]
            },
{
    let mut lane: usize = 0;
    while lane < CHUNK
        invariant
            lane <= CHUNK,
            zs@.len() == zs.len(),
            xs@.len() == ys@.len(),
            at + CHUNK <= xs@.len(),
            zs@.len() == old(zs)@.len(),
            2 * at + 2 * CHUNK <= zs@.len(),
            forall|k: int|
                0 <= k < zs@.len() ==> #[trigger] zs@[k] == if 2 * at <= k < 2 * at + 2 * lane {
                    if k % 2 == 0 {
                        xs@[k / 2]
                    } else {
                        ys@[k / 2]
                    }
                } else {
                    old(zs)@[k]
                },
        decreases CHUNK - lane,
    {
        zs[2 * (at + lane)] = xs[at + lane];
        zs[2 * (at + lane) + 1] = ys[at + lane];
        lane += 1;
    }
}

/// The fast path for two channels of 16-bit samples: the bulk of the data
/// goes chunk by chunk, a pairwise zip of `CHUNK` samples from each channel,
/// and the samples that fill no whole chunk go through the generic path.
fn i16x2_fast(xs: &[i16], ys: &[i16], zs: &mut [i16])
    requires
        xs@.len() == ys@.len(),
        old(zs)@.len() == 2 * xs@.len(),
    ensures
        final(zs)@ == interleaved(seq![xs@, ys@]),
{
    let n = xs.len();
    let bulk = n - n % CHUNK;
    assert(zs@.len() == zs.len());
    let (head, tail) = zs.split_at_mut(2 * bulk);
    let mut at: usize = 0;
    while at < bulk
        invariant
            at <= bulk <= n,
            at % CHUNK == 0,
            bulk % CHUNK == 0,
            n == xs@.len(),
            xs@.len() == ys@.len(),
            head@.len() == 2 * bulk,
            forall|k: int|
                0 <= k < 2 * at ==> #[trigger] head@[k] == if k % 2 == 0 {
                    xs@[k / 2]
                } else {
                    ys@[k / 2]
                },
        decreases bulk - at,
    {
        zip_chunk(xs, ys, head, at);
        at += CHUNK;
    }
    let rest: [&[i16]; 2] = [&xs[bulk..n], &ys[bulk..n]];
    let pair = rest.as_slice();
    proof {
        let both = planes(pair@);
        assert(both[0] == xs@.subrange(bulk as int, n as int));
        assert(both[1] == ys@.subrange(bulk as int, n as int));
        assert(valid(both, tail@.len()));
    }
    interleave_arbitrary(pair, tail);
    proof {
        let whole = interleaved(seq![xs@, ys@]);
        let both = planes(pair@);
        assert(seq![xs@, ys@].len() == 2);
        assert(seq![xs@, ys@][0] == xs@);
        assert(seq![xs@, ys@][1] == ys@);
        assert(xs@.len() * seq![xs@, ys@].len() == 2 * n) by (nonlinear_arith)
            requires
                xs@.len() == n,
                seq![xs@, ys@].len() == 2,
        ;
        assert(whole.len() == 2 * n);
        assert forall|k: int| 0 <= k < 2 * n implies (head@ + tail@)[k] == whole[k] by {
            if k >= 2 * bulk {
                let t = k - 2 * bulk;
                assert(tail@[t] == interleaved(both)[t]);
                assert(t % 2 == k % 2);
                assert(t / 2 + bulk == k / 2);
            }
        }
        assert(head@ + tail@ =~= whole);
    }
}

impl Interleave for i8 {

}

impl Interleave for i16 {
    /// Takes the fast path for two channels where the kernel offers it.
    fn interleave(kernel: Kernel, channels: &[&[i16]], out: &mut [i16]) {
        <i16 as Interleave>::validate(channels, out);
        if kernel == Kernel::Vector && channels.len() == 2 {
            assert(planes(channels@) =~= seq![channels@[0]@, channels@[1]@]);
            assert(planes(channels@)[1].len() == planes(channels@)[0].len());
            assert(planes(channels@)[0].len() * planes(channels@).len() == 2 * channels@[0]@.len())
                by (nonlinear_arith)
                requires
                    planes(channels@)[0].len() == channels@[0]@.len(),
                    planes(channels@).len() == 2,
            ;
            i16x2_fast(channels[0], channels[1], out);
        } else {
            interleave_arbitrary(channels, out);
        }
    }
}

impl Interleave for i32 {

}

} // verus!
