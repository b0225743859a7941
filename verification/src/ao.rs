//! The sink in front of an audio output device.
//!
//! A device plays interleaved samples. The sink pulls a buffer from its
//! source and interleaves it into a frame; whoever owns the device plays the
//! frame, if there is one, and asks for the next.

use crate::interleave::{interleaved, planes, Interleave, Kernel};
use crate::pipeline::{Pull, Sink, Source, SourceResult};
use vstd::prelude::*;

verus! {

/// The frame that a device is to play for what was pulled: the interleaved
/// samples of a buffer. Nothing is played for any other result.
pub open spec fn frame_of<F>(upstream: Pull<F>) -> Seq<F> {
    match upstream {
        Pull::Buffer(channels) => interleaved(channels),
        _ => Seq::empty(),
    }
}

/// Whether more input may exist after what was pulled: yes, unless the
/// stream has ended or failed.
pub open spec fn more_after<F>(upstream: Pull<F>) -> bool {
    !(upstream is EndOfStream || upstream is StreamError)
}

/// What one turn of the sink may do to the source it pulls from, and what
/// it leaves: the frame for what was pulled, and whether more may come.
pub open spec fn frame_pulled<F: Copy, R: Source<Output = F>>(
    pre: R,
    post: R,
    frame: Seq<F>,
    more: bool,
) -> bool {
    exists|upstream: Pull<F>|
        {
            &&& #[trigger] R::pulled(pre, post, upstream)
            &&& upstream.well_formed()
            &&& frame == frame_of(upstream)
            &&& more == more_after(upstream)
        }
}

/// Whether the samples of every buffer that `source` may yield next can be
/// counted on this machine.
pub open spec fn frame_fits<F: Copy, R: Source<Output = F>>(source: R) -> bool {
    forall|post: R, channels: Seq<Seq<F>>| #[trigger]
        R::pulled(source, post, Pull::Buffer(channels)) ==> channels[0].len() * channels.len()
            <= usize::MAX
}

/// Pulls from `source` and interleaves a buffer into `frame`.
fn pull_and_interleave<F: Interleave, R: Source<Output = F>>(
    source: &mut R,
    frame: &mut Vec<F>,
    kernel: Kernel,
) -> (r: Option<()>)
    requires
        old(source).ready(),
        frame_fits(*old(source)),
    ensures
        frame_pulled(*old(source), *final(source), final(frame)@, r is Some),
{
    frame.clear();
    match source.next() {
        SourceResult::Buffer(channels) => {
            let len = channels[0].len();
            assert(planes(channels@)[0].len() == len);
            let total = len * channels.len();
            if total > 0 {
                assert(len > 0) by (nonlinear_arith)
                    requires
                        total == len * channels@.len(),
                        total > 0,
                ;
                // Whatever fills the frame is overwritten.
                frame.resize(total, channels[0][0]);
            }
            F::interleave(kernel, channels.as_slice(), frame.as_mut_slice());
            Some(())
        },
        SourceResult::SampleRate(_) => Some(()),
        SourceResult::EndOfStream => None,
        SourceResult::StreamError(_) => None,
    }
}

/// Sink that feeds an audio output device.
///
/// Consumes samples of format `F` from a `Source` `R`.
pub struct AOSink<F, R> {
    interleave_buf: Vec<F>,
    source: R,
    kernel: Kernel,
}

impl<F: Interleave, R: Source<Output = F>> AOSink<F, R> {
    /// The source that is pulled from.
    pub closed spec fn source(self) -> R {
        self.source
    }

    /// The path that interleaving takes.
    pub closed spec fn kernel(self) -> Kernel {
        self.kernel
    }

    /// The interleaved samples of the buffer that was pulled last.
    pub closed spec fn frame(self) -> Seq<F> {
        self.interleave_buf@
    }

    /// Construct a sink on `source` that interleaves along `kernel`. It
    /// holds no frame yet.
    pub fn new(source: R, kernel: Kernel) -> (sink: AOSink<F, R>)
        ensures
            sink.source() == source,
            sink.kernel() == kernel,
            sink.frame().len() == 0,
    {
        AOSink { interleave_buf: Vec::new(), source: source, kernel: kernel }
    }

    /// The frame to play: the interleaved samples of the buffer that the
    /// last turn pulled. It is empty before the first turn, and after a
    /// turn that pulled no buffer.
    pub fn samples(&self) -> (frame: &[F])
        ensures
            frame@ == self.frame(),
    {
        self.interleave_buf.as_slice()
    }
}

impl<F: Interleave, R: Source<Output = F>> Sink for AOSink<F, R> {
    /// The source is ready, and the samples of whatever buffer it yields
    /// next can be counted on this machine.
    open spec fn ready(&self) -> bool {
        &&& self.source().ready()
        &&& frame_fits(self.source())
    }

    open spec fn ran_once(pre: Self, post: Self, more: bool) -> bool {
        &&& post.kernel() == pre.kernel()
        &&& frame_pulled(pre.source(), post.source(), post.frame(), more)
    }

    /// Pulls once. A buffer is interleaved into the frame; an announcement
    /// of the sample rate leaves no frame, and more is to come; the end of
    /// the stream and an error leave no frame and end the run.
    fn run_once(&mut self) -> (r: Option<()>) {
        pull_and_interleave(&mut self.source, &mut self.interleave_buf, self.kernel)
    }
}

} // verus!
