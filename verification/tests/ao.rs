use audiostream::ao::AOSink;
use audiostream::interleave::Kernel;
use audiostream::synth::Null;
use audiostream::{CopyChannel, MonoSource, Sink, Source, SourceResult};
use std::sync::atomic::AtomicBool;

/// A ramp that goes on from buffer to buffer, `left` buffers long.
struct Ramp {
    at: i16,
    left: usize,
    buffer: Vec<i16>,
}

impl Ramp {
    fn new(size: usize, buffers: usize) -> Ramp {
        Ramp { at: 0, left: buffers, buffer: vec![0; size] }
    }
}

impl MonoSource for Ramp {
    type Output = i16;

    fn next(&mut self) -> Option<&[i16]> {
        if self.left == 0 {
            return None;
        }
        self.left -= 1;
        for x in self.buffer.iter_mut() {
            *x = self.at;
            self.at += 1;
        }
        Some(&self.buffer)
    }
}

/// Announces a rate before anything else.
struct Announced<S> {
    told: bool,
    inner: S,
}

impl<S: Source<Output = i16>> Source for Announced<S> {
    type Output = i16;

    fn next(&mut self) -> SourceResult<'_, i16> {
        if self.told {
            self.inner.next()
        } else {
            self.told = true;
            SourceResult::SampleRate(44100)
        }
    }
}

/// Announces `left` rates, then fails.
struct Failing {
    left: usize,
}

impl Source for Failing {
    type Output = i16;

    fn next(&mut self) -> SourceResult<'_, i16> {
        if self.left > 0 {
            self.left -= 1;
            SourceResult::SampleRate(48000)
        } else {
            SourceResult::StreamError(String::from("decode failure"))
        }
    }
}

#[test]
fn a_new_sink_holds_no_frame() {
    let sink = AOSink::<i16, _>::new(Null::<i16>::new(16).adapt(), Kernel::Scalar);
    assert!(sink.samples().is_empty());
}

#[test]
fn one_channel_is_played_as_it_is() {
    let mut sink = AOSink::<i16, _>::new(Ramp::new(5, 2).adapt(), Kernel::Vector);
    assert_eq!(sink.run_once(), Some(()));
    assert_eq!(sink.samples(), &[0i16, 1, 2, 3, 4][..]);
    assert_eq!(sink.run_once(), Some(()));
    assert_eq!(sink.samples(), &[5i16, 6, 7, 8, 9][..]);
    assert_eq!(sink.run_once(), None);
    assert!(sink.samples().is_empty());
    assert_eq!(sink.run_once(), None);
}

#[test]
fn channels_are_interleaved_into_the_frame() {
    for kernel in [Kernel::Scalar, Kernel::Vector] {
        let stereo = CopyChannel::new(0, 1, Ramp::new(11, 1).adapt());
        let mut sink = AOSink::<i16, _>::new(stereo, kernel);
        assert_eq!(sink.run_once(), Some(()));
        let expected: Vec<i16> = (0..22).map(|k| k / 2).collect();
        assert_eq!(sink.samples(), &expected[..]);

        let three = CopyChannel::new(1, 2, CopyChannel::new(0, 1, Ramp::new(3, 1).adapt()));
        let mut sink = AOSink::<i16, _>::new(three, kernel);
        assert_eq!(sink.run_once(), Some(()));
        assert_eq!(sink.samples(), &[0i16, 0, 0, 1, 1, 1, 2, 2, 2][..]);
    }
}

#[test]
fn an_empty_buffer_is_an_empty_frame_and_more_to_come() {
    let mut sink = AOSink::<i16, _>::new(Ramp::new(0, 1).adapt(), Kernel::Vector);
    assert_eq!(sink.run_once(), Some(()));
    assert!(sink.samples().is_empty());
    assert_eq!(sink.run_once(), None);
}

#[test]
fn an_announced_rate_leaves_no_frame_and_more_to_come() {
    let mut sink = AOSink::<i16, _>::new(
        Announced { told: false, inner: Ramp::new(4, 2).adapt() },
        Kernel::Scalar,
    );
    assert_eq!(sink.run_once(), Some(()));
    assert!(sink.samples().is_empty());
    assert_eq!(sink.run_once(), Some(()));
    assert_eq!(sink.samples(), &[0i16, 1, 2, 3][..]);
    assert_eq!(sink.run_once(), Some(()));
    assert_eq!(sink.samples(), &[4i16, 5, 6, 7][..]);
    assert_eq!(sink.run_once(), None);
    assert!(sink.samples().is_empty());
}

#[test]
fn a_rate_in_mid_stream_does_not_end_the_run() {
    let flag = AtomicBool::new(false);
    let mut sink = AOSink::<i16, _>::new(
        Announced { told: false, inner: Ramp::new(4, 2).adapt() },
        Kernel::Scalar,
    );
    assert_eq!(sink.run(&flag, 3), Some(()));
    assert_eq!(sink.samples(), &[4i16, 5, 6, 7][..]);
    assert_eq!(sink.run(&flag, 3), None);
}

#[test]
fn an_error_in_the_stream_ends_the_run() {
    let mut sink = AOSink::<i16, _>::new(Failing { left: 1 }, Kernel::Scalar);
    assert_eq!(sink.run_once(), Some(()));
    assert!(sink.samples().is_empty());
    assert_eq!(sink.run_once(), None);
    assert!(sink.samples().is_empty());
}

#[test]
fn the_sink_runs_until_the_stream_ends() {
    let flag = AtomicBool::new(false);
    let mut sink = AOSink::<i16, _>::new(Ramp::new(4, 3).adapt(), Kernel::Scalar);
    assert_eq!(sink.run(&flag, 2), Some(()));
    assert_eq!(sink.samples(), &[4i16, 5, 6, 7][..]);
    assert_eq!(sink.run(&flag, 2), None);
    assert!(sink.samples().is_empty());
}

#[test]
fn a_terminated_sink_keeps_its_frame() {
    let flag = AtomicBool::new(false);
    let mut sink = AOSink::<i16, _>::new(Ramp::new(4, 3).adapt(), Kernel::Scalar);
    assert_eq!(sink.turn(false), Some(()));
    flag.store(true, std::sync::atomic::Ordering::Release);
    assert_eq!(sink.run(&flag, 10), None);
    assert_eq!(sink.samples(), &[0i16, 1, 2, 3][..]);
    assert_eq!(sink.turn(true), None);
    assert_eq!(sink.samples(), &[0i16, 1, 2, 3][..]);
}
