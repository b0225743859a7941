//! Audio stream pipelines and processing.
//!
//! Streams are sequences of buffers, each holding zero or more samples per
//! channel. Data is produced by a `Source` on demand and pulled through a
//! chain of stages by a `Sink`: a source yields buffers only as fast as the
//! sink asks for them.
//!
//! The contracts of this crate are proved by Verus, but for those of three
//! conversions that the `num` crate performs: they are marked in `sample`.

pub mod adapters;
pub mod ao;
pub mod cpu;
pub mod interleave;
pub mod pipeline;
pub mod sample;
pub mod synth;

pub use adapters::{Amplify, CopyChannel, Mix};
pub use pipeline::{MonoAdapter, MonoSource, Sink, Source, SourceResult};

pub use sample::Sample;
pub use synth::UninitializedSource;
