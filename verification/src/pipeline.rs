//! The pull contract that buffers travel through.
//!
//! From least general to most, there are two classes of sources:
//!  * a `MonoSource` provides a stream of samples of one channel. This
//!    stream is strictly linear and can only mark its end;
//!  * a `Source` provides blocks of any number of channels, and says at what
//!    rate they are to be played.
//!
//! A `MonoSource` can always be adapted into a `Source`, with `adapt`.
//!
//! A buffer is lent for one pull: it belongs to the source that yields it,
//! and the borrow ends before that source is pulled again. A stage that
//! changes samples writes them to storage of its own.
//!
//! What a pull does is stated as a relation between the source before the
//! pull, the source after it and the result. A stage states its relation
//! over that of the stage it pulls from, so that what is known of a chain
//! follows from what is known of its ends.

use crate::interleave::{channel_major, planes};
use std::sync::atomic::AtomicBool;
use std::sync::atomic::Ordering;
use vstd::prelude::*;

verus! {

/// Output from `Source` pull.
#[derive(Debug, PartialEq)]
pub enum SourceResult<'a, T> {
    /// Channel-major buffer of samples.
    ///
    /// All channels are guaranteed to have the same number of samples, and
    /// there is always at least one channel.
    Buffer(Vec<&'a [T]>),
    /// Following samples have the specified rate (in Hz).
    SampleRate(u32),
    /// Reached stream end.
    EndOfStream,
    /// There was an error in the stream.
    StreamError(String),
}

/// What a pull yields, as plain values.
pub enum Pull<T> {
    /// The samples of a buffer, one sequence per channel.
    Buffer(Seq<Seq<T>>),
    /// Following samples have the specified rate (in Hz).
    SampleRate(u32),
    /// Reached stream end.
    EndOfStream,
    /// There was an error in the stream, with its description.
    StreamError(Seq<char>),
}

impl<T> Pull<T> {
    /// A buffer is channel-major; every other result is well formed as it
    /// is.
    pub open spec fn well_formed(self) -> bool {
        match self {
            Pull::Buffer(channels) => channel_major(channels),
            _ => true,
        }
    }
}

impl<'a, T> View for SourceResult<'a, T> {
    type V = Pull<T>;

    open spec fn view(&self) -> Pull<T> {
        match self {
            SourceResult::Buffer(channels) => Pull::Buffer(planes(channels@)),
            SourceResult::SampleRate(rate) => Pull::SampleRate(*rate),
            SourceResult::EndOfStream => Pull::EndOfStream,
            SourceResult::StreamError(description) => Pull::StreamError(description@),
        }
    }
}

/// What a pull from a `MonoSource` yields, as plain values.
pub open spec fn mono_view<T>(r: Option<&[T]>) -> Option<Seq<T>> {
    match r {
        Some(buffer) => Some(buffer@),
        None => None,
    }
}

/// A source of samples with defined sample rate.
///
/// Generates buffers of samples of type `Output` and passes them to a
/// consumer.
pub trait Source: Sized {
    /// The sample format emitted by this source.
    type Output: Copy;

    /// What has to hold of the source for a pull to go through. Nothing,
    /// unless a source says otherwise.
    open spec fn ready(&self) -> bool {
        true
    }

    /// What a pull may do: `pre` is the source before the pull, `post` the
    /// source after it and `r` the result. Anything, unless a source says
    /// more.
    open spec fn pulled(pre: Self, post: Self, r: Pull<Self::Output>) -> bool {
        true
    }

    /// Emit the next buffer.
    ///
    /// The buffer is valid until the next call on the same source, which
    /// may well use the same storage again.
    fn next(&mut self) -> (r: SourceResult<'_, Self::Output>)
        requires
            old(self).ready(),
        ensures
            r@.well_formed(),
            Self::pulled(*old(self), *final(self), r@),
    ;
}

/// A `Source` that only generates one channel at an indeterminate sample
/// rate.
///
/// To generalize to a full `Source`, use the `adapt` method.
pub trait MonoSource: Sized {
    /// The sample format yielded by this source.
    type Output;

    /// What has to hold of the source for a pull to go through. Nothing,
    /// unless a source says otherwise.
    open spec fn ready(&self) -> bool {
        true
    }

    /// What a pull may do: `pre` is the source before the pull, `post` the
    /// source after it and `r` the result. Anything, unless a source says
    /// more.
    open spec fn pulled(pre: Self, post: Self, r: Option<Seq<Self::Output>>) -> bool {
        true
    }

    /// Get the next set of samples, or `None` when there are no more.
    fn next(&mut self) -> (r: Option<&[Self::Output]>)
        requires
            old(self).ready(),
        ensures
            Self::pulled(*old(self), *final(self), mono_view(r)),
    ;

    /// Adapts a `MonoSource` into a (more general) `Source`.
    fn adapt(self) -> (adapter: MonoAdapter<Self>)
        ensures
            adapter.source() == self,
    {
        MonoAdapter { src: self }
    }
}

/// Generalizes a `MonoSource` into `Source`.
pub struct MonoAdapter<T> {
    src: T,
}

impl<T> MonoAdapter<T> {
    /// The source that is adapted.
    pub closed spec fn source(self) -> T {
        self.src
    }

    /// The source that is adapted.
    pub fn inner(&self) -> (src: &T)
        ensures
            *src == self.source(),
    {
        &self.src
    }
}

impl<F: Copy, T: MonoSource<Output = F>> Source for MonoAdapter<T> {
    type Output = F;

    open spec fn ready(&self) -> bool {
        self.source().ready()
    }

    /// The one channel of a buffer is what the adapted source yields, and
    /// the stream ends where the adapted source has no more.
    open spec fn pulled(pre: Self, post: Self, r: Pull<F>) -> bool {
        match r {
            Pull::Buffer(channels) => channels.len() == 1 && T::pulled(
                pre.source(),
                post.source(),
                Some(channels[0]),
            ),
            Pull::EndOfStream => T::pulled(pre.source(), post.source(), None),
            _ => false,
        }
    }

    /// The buffer of the adapted source is handed on as it is: no sample is
    /// copied.
    fn next(&mut self) -> (r: SourceResult<'_, F>) {
        match self.src.next() {
            None => SourceResult::EndOfStream,
            Some(b) => {
                let mut channels: Vec<&[F]> = Vec::new();
                channels.push(b);
                assert(planes(channels@) =~= seq![b@]);
                SourceResult::Buffer(channels)
            },
        }
    }
}

/// Whether `property` holds of `x`.
pub open spec fn holds<T>(property: spec_fn(T) -> bool, x: T) -> bool {
    property(x)
}

/// Whether one step leads from `pre` to `post`.
pub open spec fn follows<T>(step: spec_fn(T, T) -> bool, pre: T, post: T) -> bool {
    step(pre, post)
}

/// Whether `n` steps lead from `pre` to `post`, one after the other.
pub open spec fn steps<T>(step: spec_fn(T, T) -> bool, pre: T, post: T, n: usize) -> bool
    decreases n,
{
    if n == 0 {
        pre == post
    } else {
        exists|mid: T| steps(step, pre, mid, (n - 1) as usize) && #[trigger] follows(step, mid, post)
    }
}

/// Whether fewer than `bound` steps lead from `pre` to `post`.
pub open spec fn fewer_steps<T>(step: spec_fn(T, T) -> bool, pre: T, post: T, bound: usize) -> bool {
    exists|n: usize| n < bound && #[trigger] steps(step, pre, post, n)
}

/// One more step after `n` steps makes `n + 1` steps.
pub proof fn steps_go_on<T>(step: spec_fn(T, T) -> bool, pre: T, mid: T, post: T, n: usize)
    requires
        steps(step, pre, mid, n),
        step(mid, post),
        n < usize::MAX,
    ensures
        steps(step, pre, post, (n + 1) as usize),
{
    let m = (n + 1) as usize;
    assert(steps(step, pre, mid, (m - 1) as usize) && follows(step, mid, post));
}

/// A consumer of buffers.
pub trait Sink: Sized {
    /// What has to hold of the sink for it to process a buffer. Nothing,
    /// unless a sink says otherwise.
    open spec fn ready(&self) -> bool {
        true
    }

    /// What processing one buffer may do: `pre` is the sink before, `post`
    /// the sink after, and `more` says whether there may be more buffers.
    /// Anything, unless a sink says more.
    open spec fn ran_once(pre: Self, post: Self, more: bool) -> bool {
        true
    }

    /// Process a single buffer.
    ///
    /// Returns `Some` if there will be more buffers to process, or `None`
    /// otherwise.
    fn run_once(&mut self) -> (r: Option<()>)
        requires
            old(self).ready(),
        ensures
            Self::ran_once(*old(self), *final(self), r is Some),
    ;

    /// One turn of `run`, given what the termination flag held when it was
    /// polled.
    ///
    /// With the flag set nothing is pulled: the sink stays as it is and the
    /// run is over. With the flag unset a single buffer is processed.
    fn turn(&mut self, terminate: bool) -> (r: Option<()>)
        requires
            old(self).ready(),
        ensures
            terminate ==> r is None && *final(self) == *old(self),
            !terminate ==> Self::ran_once(*old(self), *final(self), r is Some),
    {
        if terminate {
            None
        } else {
            self.run_once()
        }
    }

    /// Process buffers until end of stream or terminated, `budget` of them
    /// at most.
    ///
    /// As long as `term_cond` is unset and there are buffers available,
    /// this will process buffers. The flag is polled once before each
    /// buffer, never while one is processed: once it is set, no additional
    /// buffer will be processed and the function returns.
    ///
    /// Returns `Some` if the budget ran out first: the sink is then where
    /// `budget` turns of `run_once`, each with more to come, have taken it,
    /// and is ready to run on. Returns `None` if the stream ended or the run
    /// was terminated: fewer than `budget` such turns were made, and after
    /// them either nothing (the run was terminated) or one turn of
    /// `run_once` that had no more.
    ///
    /// Whatever holds of the sink before the run and is kept by every turn
    /// of `run_once` holds after the run.
    fn run(&mut self, term_cond: &AtomicBool, budget: usize) -> (r: Option<()>)
        requires
            old(self).ready(),
            forall|a: Self, b: Self| a.ready() && #[trigger] Self::ran_once(a, b, true) ==> b.ready(),
        ensures
            budget == 0 ==> r is Some && *final(self) == *old(self),
            r is Some ==> final(self).ready() && steps(
                |a: Self, b: Self| a.ready() && Self::ran_once(a, b, true),
                *old(self),
                *final(self),
                budget,
            ),
            r is None ==> exists|last: Self|
                {
                    &&& #[trigger] last.ready()
                    &&& fewer_steps(
                        |a: Self, b: Self| a.ready() && Self::ran_once(a, b, true),
                        *old(self),
                        last,
                        budget,
                    )
                    &&& (*final(self) == last || Self::ran_once(last, *final(self), false))
                },
            forall|kept: spec_fn(Self) -> bool|
                holds(kept, *old(self)) && (forall|a: Self, b: Self, more: bool|
                    holds(kept, a) && a.ready() && #[trigger] Self::ran_once(a, b, more) ==> holds(
                        kept,
                        b,
                    )) ==> #[trigger] holds(kept, *final(self)),
    {
        let ghost step = |a: Self, b: Self| a.ready() && Self::ran_once(a, b, true);
        let mut done: usize = 0;
        while done < budget
            invariant
                done <= budget,
                self.ready(),
                step == |a: Self, b: Self| a.ready() && Self::ran_once(a, b, true),
                steps(step, *old(self), *self, done),
                forall|a: Self, b: Self| a.ready() && #[trigger] Self::ran_once(a, b, true) ==> b.ready(),
                forall|kept: spec_fn(Self) -> bool|
                    holds(kept, *old(self)) && (forall|a: Self, b: Self, more: bool|
                        holds(kept, a) && a.ready() && #[trigger] Self::ran_once(a, b, more)
                            ==> holds(kept, b)) ==> #[trigger] holds(kept, *self),
            decreases budget - done,
        {
            let ghost before = *self;
            let terminate = term_cond.load(Ordering::Acquire);
            let more = self.turn(terminate);
            assert forall|kept: spec_fn(Self) -> bool|
                holds(kept, *old(self)) && (forall|a: Self, b: Self, more: bool|
                    holds(kept, a) && a.ready() && #[trigger] Self::ran_once(a, b, more) ==> holds(
                        kept,
                        b,
                    )) implies #[trigger] holds(kept, *self) by {
                assert(holds(kept, before));
            }
            if more.is_none() {
                assert(fewer_steps(step, *old(self), before, budget));
                assert(before.ready());
                return None;
            }
            proof {
                steps_go_on(step, *old(self), before, *self, done);
            }
            done += 1;
        }
        Some(())
    }
}

} // verus!
