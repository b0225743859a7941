//! Signal synthesizers.

use crate::pipeline::MonoSource;
use crate::sample::Sample;
use vstd::prelude::*;

verus! {

/// The sample that stands for silence.
pub fn silence<F: Sample>() -> (zero: F)
    ensures
        zero.level() == 0,
{
    proof {
        F::range_holds_zero();
    }
    F::from_usize(0).unwrap()
}

/// A source of uncontrolled samples.
///
/// Owns a buffer that is lent down a pipeline, and promises of it only its
/// length: what it holds is whatever was last written to it.
///
/// This struct is what synthesis sources are built on, and is of little use
/// by itself. It may be useful, however, for building custom sources.
pub struct UninitializedSource<F> {
    buffer: Vec<F>,
}

impl<F> UninitializedSource<F> {
    /// The samples that the buffer holds.
    pub closed spec fn content(self) -> Seq<F> {
        self.buffer@
    }

    /// The buffer, to write to. Its length stays as it is.
    pub fn samples(&mut self) -> (buffer: &mut [F])
        ensures
            buffer@ == old(self).content(),
            final(self).content() == final(buffer)@,
    {
        self.buffer.as_mut_slice()
    }
}

impl<F: Sample> UninitializedSource<F> {
    /// Create a source of uncontrolled samples.
    ///
    /// The yielded buffers will have `size` items, of silence until they
    /// are written to.
    pub fn new(size: usize) -> (source: UninitializedSource<F>)
        ensures
            is_silence(source.content(), size as nat),
    {
        let zero: F = silence();
        let mut buffer: Vec<F> = Vec::new();
        let mut i: usize = 0;
        while i < size
            invariant
                i <= size,
                zero.level() == 0,
                is_silence(buffer@, i as nat),
            decreases size - i,
        {
            buffer.push(zero);
            i += 1;
        }
        UninitializedSource { buffer }
    }
}

impl<F> MonoSource for UninitializedSource<F> {
    type Output = F;

    open spec fn ready(&self) -> bool {
        true
    }

    /// The buffer is yielded as it stands, and stays as it is.
    open spec fn pulled(pre: Self, post: Self, r: Option<Seq<F>>) -> bool {
        &&& r == Some(pre.content())
        &&& post.content() == pre.content()
    }

    fn next(&mut self) -> (r: Option<&[F]>) {
        Some(self.buffer.as_slice())
    }
}

/// Pure silence.
pub struct Null<F> {
    src: UninitializedSource<F>,
}

impl<F: Sample> Null<F> {
    /// The number of samples in each buffer.
    pub closed spec fn size(self) -> nat {
        self.src.content().len()
    }

    /// Create a source of pure silence for buffers of `size` samples.
    pub fn new(size: usize) -> (source: Null<F>)
        ensures
            source.size() == size,
    {
        Null { src: UninitializedSource::new(size) }
    }
}

/// Whether `buffer` holds `size` samples of silence.
pub open spec fn is_silence<F: Sample>(buffer: Seq<F>, size: nat) -> bool {
    &&& buffer.len() == size
    &&& forall|i: int| 0 <= i < buffer.len() ==> (#[trigger] buffer[i]).level() == 0
}

impl<F: Sample> MonoSource for Null<F> {
    type Output = F;

    open spec fn ready(&self) -> bool {
        true
    }

    /// Every pull yields a buffer of silence, of the size the source was
    /// made with.
    open spec fn pulled(pre: Self, post: Self, r: Option<Seq<F>>) -> bool {
        &&& r is Some
        &&& is_silence(r->0, pre.size())
        &&& post.size() == pre.size()
    }

    fn next(&mut self) -> (r: Option<&[F]>) {
        let zero: F = silence();
        let buf = self.src.samples();
        let n = buf.len();
        let mut i: usize = 0;
        while i < n
            invariant
                i <= n,
                n == buf@.len(),
                forall|k: int| 0 <= k < i ==> (#[trigger] buf@[k]).level() == 0,
                zero.level() == 0,
            decreases n - i,
        {
            buf[i] = zero;
            i += 1;
        }
        self.src.next()
    }
}

} // verus!
