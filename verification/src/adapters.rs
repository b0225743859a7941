//! Stages that stand between a source and a sink.

use crate::interleave::planes;
use crate::pipeline::{mono_view, MonoSource, Pull, Source, SourceResult};
use crate::sample::{mixed, Sample};
use vstd::prelude::*;

verus! {

/// What `CopyChannel` makes of what it pulled: in a buffer, channel `to`
/// holds the samples of channel `from`; a `to` that is the number of
/// channels adds one. Every other result is handed on as it is.
pub open spec fn copied<T>(upstream: Pull<T>, from: int, to: int) -> Pull<T> {
    match upstream {
        Pull::Buffer(channels) => Pull::Buffer(
            if to == channels.len() {
                channels.push(channels[from])
            } else {
                channels.update(to, channels[from])
            },
        ),
        other => other,
    }
}

/// Make a copy of a specified channel.
///
/// The source channel may be any index, and the destination may be an
/// existing channel (in which case the data it held is lost) or one more
/// than the highest valid channel (in which case a new channel is created).
///
/// The destination never shares its samples with the source channel: this
/// always makes a copy.
pub struct CopyChannel<F, S> {
    /// Channel index (from 0) to copy from.
    from: usize,
    /// Channel index to copy to.
    to: usize,
    source: S,
    samples: Vec<F>,
}

impl<F: Copy, S: Source<Output = F>> CopyChannel<F, S> {
    /// Channel index (from 0) to copy from.
    pub closed spec fn from(self) -> usize {
        self.from
    }

    /// Channel index to copy to.
    pub closed spec fn to(self) -> usize {
        self.to
    }

    /// The source that is pulled from.
    pub closed spec fn source(self) -> S {
        self.source
    }

    /// Create a new `CopyChannel`.
    pub fn new(from: usize, to: usize, source: S) -> (stage: CopyChannel<F, S>)
        ensures
            stage.from() == from,
            stage.to() == to,
            stage.source() == source,
    {
        CopyChannel { from: from, to: to, source: source, samples: Vec::new() }
    }
}

/// What a pull through `CopyChannel` may do to the source it pulls from,
/// and what it yields: what the source yielded, with the channel copied.
pub open spec fn copy_pulled<F: Copy, S: Source<Output = F>>(
    pre: S,
    post: S,
    from: usize,
    to: usize,
    r: Pull<F>,
) -> bool {
    exists|upstream: Pull<F>|
        {
            &&& #[trigger] S::pulled(pre, post, upstream)
            &&& upstream.well_formed()
            &&& r == copied(upstream, from as int, to as int)
        }
}

/// Whether every buffer that `source` may yield next has a channel `from`,
/// and either a channel `to` or exactly `to` channels.
pub open spec fn can_copy<F: Copy, S: Source<Output = F>>(source: S, from: usize, to: usize) -> bool {
    forall|post: S, channels: Seq<Seq<F>>| #[trigger]
        S::pulled(source, post, Pull::Buffer(channels)) ==> from < channels.len() && to
            <= channels.len()
}

/// Pulls from `source` and copies channel `from` of a buffer to channel
/// `to`, by way of `samples`.
fn pull_and_copy<'a, F: Copy, S: Source<Output = F>>(
    source: &'a mut S,
    samples: &'a mut Vec<F>,
    from: usize,
    to: usize,
) -> (r: SourceResult<'a, F>)
    requires
        old(source).ready(),
        can_copy(*old(source), from, to),
    ensures
        r@.well_formed(),
        copy_pulled(*old(source), *final(source), from, to, r@),
{
    let mut b = match source.next() {
        SourceResult::Buffer(b) => b,
        x => {
            assert(x@ == copied(x@, from as int, to as int));
            return x;
        },
    };
    let ghost upstream = planes(b@);
    samples.clear();
    let wanted = b[from];
    let mut i: usize = 0;
    while i < wanted.len()
        invariant
            i <= wanted@.len(),
            samples@ == wanted@.take(i as int),
        decreases wanted@.len() - i,
    {
        samples.push(wanted[i]);
        assert(wanted@.take(i as int).push(wanted@[i as int]) =~= wanted@.take(
            i as int + 1,
        ));
        i += 1;
    }
    assert(wanted@.take(i as int) =~= wanted@);
    if to == b.len() {
        b.push(samples.as_slice());
        assert(planes(b@) =~= upstream.push(upstream[from as int]));
    } else {
        b[to] = samples.as_slice();
        assert(planes(b@) =~= upstream.update(to as int, upstream[from as int]));
    }
    assert(planes(b@)[to as int].len() == upstream[0].len());
    assert(Pull::Buffer(planes(b@)) == copied(Pull::Buffer(upstream), from as int, to as int));
    SourceResult::Buffer(b)
}

impl<F: Copy, S: Source<Output = F>> Source for CopyChannel<F, S> {
    type Output = F;

    /// The source is ready, and whatever buffer it yields next has a channel
    /// `from` and either a channel `to` or exactly `to` channels.
    open spec fn ready(&self) -> bool {
        &&& self.source().ready()
        &&& can_copy(self.source(), self.from(), self.to())
    }

    open spec fn pulled(pre: Self, post: Self, r: Pull<F>) -> bool {
        &&& post.from() == pre.from()
        &&& post.to() == pre.to()
        &&& copy_pulled(pre.source(), post.source(), pre.from(), pre.to(), r)
    }

    fn next(&mut self) -> (r: SourceResult<'_, F>) {
        pull_and_copy(&mut self.source, &mut self.samples, self.from, self.to)
    }
}

/// Whether `m` is the mix of `x` and `y`, sample by sample.
pub open spec fn is_mix<F: Sample>(m: Seq<F>, x: Seq<F>, y: Seq<F>) -> bool {
    &&& m.len() == x.len()
    &&& forall|i: int|
        0 <= i < m.len() ==> (#[trigger] m[i]).level() == mixed(
            F::hard(),
            F::min_level(),
            F::max_level(),
            x[i].level(),
            y[i].level(),
        )
}

/// What a pull through `Mix` may do to its two sources, and what it yields.
///
/// The first source is pulled, and the second only if the first had
/// samples. Where both have, their mix is yielded; where either has no more,
/// there are no more.
pub open spec fn mix_pulled<F: Sample, A: MonoSource<Output = F>, B: MonoSource<Output = F>>(
    pre_a: A,
    post_a: A,
    pre_b: B,
    post_b: B,
    r: Option<Seq<F>>,
) -> bool {
    exists|first: Option<Seq<F>>|
        {
            &&& #[trigger] A::pulled(pre_a, post_a, first)
            &&& match first {
                None => r is None && post_b == pre_b,
                Some(x) => exists|second: Option<Seq<F>>|
                    {
                        &&& #[trigger] B::pulled(pre_b, post_b, second)
                        &&& match second {
                            None => r is None,
                            Some(y) => r is Some && is_mix(r->0, x, y),
                        }
                    },
            }
        }
}

/// Whether the buffers that `a` and `b` may yield next are of the same
/// length.
pub open spec fn can_mix<F: Sample, A: MonoSource<Output = F>, B: MonoSource<Output = F>>(
    a: A,
    b: B,
) -> bool {
    forall|post_a: A, x: Seq<F>, post_b: B, y: Seq<F>|
        #![trigger A::pulled(a, post_a, Some(x)), B::pulled(b, post_b, Some(y))]
        A::pulled(a, post_a, Some(x)) && B::pulled(b, post_b, Some(y)) ==> x.len() == y.len()
}

/// Pulls from `a`, then from `b`, and mixes what they yield into `out`.
fn pull_and_mix<'a, F: Sample, A: MonoSource<Output = F>, B: MonoSource<Output = F>>(
    a: &'a mut A,
    b: &'a mut B,
    out: &'a mut Vec<F>,
) -> (r: Option<&'a [F]>)
    requires
        old(a).ready(),
        old(b).ready(),
        can_mix(*old(a), *old(b)),
    ensures
        mix_pulled(*old(a), *final(a), *old(b), *final(b), mono_view(r)),
{
    let a_buf = match a.next() {
        Some(buf) => buf,
        None => {
            return None;
        },
    };
    let b_buf = match b.next() {
        Some(buf) => buf,
        None => {
            return None;
        },
    };
    out.clear();
    let mut i: usize = 0;
    while i < a_buf.len()
        invariant
            i <= a_buf@.len(),
            a_buf@.len() == b_buf@.len(),
            out@.len() == i,
            forall|k: int|
                0 <= k < i ==> (#[trigger] out@[k]).level() == mixed(
                    F::hard(),
                    F::min_level(),
                    F::max_level(),
                    a_buf@[k].level(),
                    b_buf@[k].level(),
                ),
        decreases a_buf@.len() - i,
    {
        out.push(a_buf[i].mix(&b_buf[i]));
        i += 1;
    }
    Some(out.as_slice())
}

/// The sum of two single-channel sources of the same format, whose buffers
/// are of the same length.
pub struct Mix<A: MonoSource, B> {
    sources: (A, B),
    mixed: Vec<A::Output>,
}

impl<F: Sample, A: MonoSource<Output = F>, B: MonoSource<Output = F>> Mix<A, B> {
    /// The two sources that are mixed.
    pub closed spec fn sources(self) -> (A, B) {
        self.sources
    }

    /// Create a new `Mix` of `a` and `b`.
    pub fn new(a: A, b: B) -> (stage: Mix<A, B>)
        ensures
            stage.sources() == (a, b),
    {
        Mix { sources: (a, b), mixed: Vec::new() }
    }
}

impl<F: Sample, A: MonoSource<Output = F>, B: MonoSource<Output = F>> MonoSource for Mix<A, B> {
    type Output = F;

    /// Both sources are ready, and the buffers that they yield next are of
    /// the same length.
    open spec fn ready(&self) -> bool {
        &&& self.sources().0.ready()
        &&& self.sources().1.ready()
        &&& can_mix(self.sources().0, self.sources().1)
    }

    open spec fn pulled(pre: Self, post: Self, r: Option<Seq<F>>) -> bool {
        mix_pulled(pre.sources().0, post.sources().0, pre.sources().1, post.sources().1, r)
    }

    fn next(&mut self) -> (r: Option<&[F]>) {
        pull_and_mix(&mut self.sources.0, &mut self.sources.1, &mut self.mixed)
    }
}

/// What `Amplify` makes of what it pulled: in a buffer, every sample is
/// what `gain` makes of the sample in its place. Every other result is
/// handed on as it is.
pub open spec fn amplified<F, G: Fn(F) -> F>(upstream: Pull<F>, gain: G, r: Pull<F>) -> bool {
    match upstream {
        Pull::Buffer(channels) => {
            &&& r is Buffer
            &&& r->Buffer_0.len() == channels.len()
            &&& forall|c: int|
                0 <= c < channels.len() ==> (#[trigger] r->Buffer_0[c]).len() == channels[c].len()
            &&& forall|c: int, i: int|
                0 <= c < channels.len() && 0 <= i < channels[c].len() ==> call_ensures(
                    gain,
                    (channels[c][i],),
                    #[trigger] r->Buffer_0[c][i],
                )
        },
        other => r == other,
    }
}

/// What a pull through `Amplify` may do to the source it pulls from, and
/// what it yields.
pub open spec fn amplify_pulled<F: Copy, S: Source<Output = F>, G: Fn(F) -> F>(
    pre: S,
    post: S,
    gain: G,
    r: Pull<F>,
) -> bool {
    exists|upstream: Pull<F>|
        {
            &&& #[trigger] S::pulled(pre, post, upstream)
            &&& upstream.well_formed()
            &&& amplified(upstream, gain, r)
        }
}

/// Pulls from `source` and writes what `gain` makes of each sample of a
/// buffer to `scratch`.
fn pull_and_amplify<'a, F: Copy, S: Source<Output = F>, G: Fn(F) -> F>(
    source: &'a mut S,
    scratch: &'a mut Vec<Vec<F>>,
    gain: &G,
) -> (r: SourceResult<'a, F>)
    requires
        old(source).ready(),
        forall|x: F| call_requires(*gain, (x,)),
    ensures
        r@.well_formed(),
        amplify_pulled(*old(source), *final(source), *gain, r@),
{
    let buf = match source.next() {
        SourceResult::Buffer(b) => b,
        x => {
            return x;
        },
    };
    let ghost upstream = planes(buf@);
    scratch.clear();
    let mut c: usize = 0;
    while c < buf.len()
        invariant
            c <= buf@.len(),
            upstream == planes(buf@),
            scratch@.len() == c,
            forall|x: F| call_requires(*gain, (x,)),
            forall|d: int| 0 <= d < c ==> (#[trigger] scratch@[d])@.len() == upstream[d].len(),
            forall|d: int, i: int|
                0 <= d < c && 0 <= i < upstream[d].len() ==> call_ensures(
                    *gain,
                    (upstream[d][i],),
                    #[trigger] scratch@[d]@[i],
                ),
        decreases buf@.len() - c,
    {
        let channel = buf[c];
        let mut out: Vec<F> = Vec::new();
        let mut i: usize = 0;
        while i < channel.len()
            invariant
                i <= channel@.len(),
                out@.len() == i,
                forall|x: F| call_requires(*gain, (x,)),
                forall|k: int| 0 <= k < i ==> call_ensures(*gain, (channel@[k],), #[trigger] out@[k]),
            decreases channel@.len() - i,
        {
            out.push(gain(channel[i]));
            i += 1;
        }
        scratch.push(out);
        c += 1;
    }
    let filled: &'a Vec<Vec<F>> = scratch;
    let mut views: Vec<&'a [F]> = Vec::new();
    let mut d: usize = 0;
    while d < filled.len()
        invariant
            d <= filled@.len(),
            views@.len() == d,
            forall|e: int| 0 <= e < d ==> (#[trigger] views@[e])@ == filled@[e]@,
        decreases filled@.len() - d,
    {
        views.push(filled[d].as_slice());
        d += 1;
    }
    assert(planes(views@).len() == upstream.len());
    assert forall|e: int| 0 <= e < upstream.len() implies (#[trigger] planes(views@)[e])
        == filled@[e]@ by {}
    assert(planes(views@)[0].len() == upstream[0].len());
    SourceResult::Buffer(views)
}

/// Adjust the amplitude of the input stream, one sample at a time.
///
/// `gain` says what becomes of a sample: it is applied to every sample of
/// every channel, and its results are yielded in place of the samples.
pub struct Amplify<F, S, G> {
    gain: G,
    source: S,
    amplified: Vec<Vec<F>>,
}

impl<F: Copy, S: Source<Output = F>, G: Fn(F) -> F> Amplify<F, S, G> {
    /// What becomes of a sample.
    pub closed spec fn gain(self) -> G {
        self.gain
    }

    /// The source that is pulled from.
    pub closed spec fn source(self) -> S {
        self.source
    }

    /// Create a new amplifier (or attenuator).
    pub fn new(source: S, gain: G) -> (stage: Amplify<F, S, G>)
        ensures
            stage.source() == source,
            stage.gain() == gain,
    {
        Amplify { gain: gain, source: source, amplified: Vec::new() }
    }
}

impl<F: Copy, S: Source<Output = F>, G: Fn(F) -> F> Source for Amplify<F, S, G> {
    type Output = F;

    /// The source is ready, and `gain` takes every sample.
    open spec fn ready(&self) -> bool {
        &&& self.source().ready()
        &&& forall|x: F| call_requires(self.gain(), (x,))
    }

    open spec fn pulled(pre: Self, post: Self, r: Pull<F>) -> bool {
        &&& post.gain() == pre.gain()
        &&& amplify_pulled(pre.source(), post.source(), pre.gain(), r)
    }

    fn next(&mut self) -> (r: SourceResult<'_, F>) {
        pull_and_amplify(&mut self.source, &mut self.amplified, &self.gain)
    }
}

} // verus!
