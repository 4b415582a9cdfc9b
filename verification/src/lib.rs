//! Core of an AV1-in-IVF video playback pipeline.
//!
//! The crate demuxes an IVF container held in memory into coded packets
//! ([`ivf::Demuxer`]), models the feed/drain protocol that drives an external
//! AV1 decoder as an explicit state machine ([`worker::DecodeWorker`]),
//! converts decoded planar pictures into packed BGRA frames
//! ([`convert`]), and paces delivery of those frames against a wall clock
//! ([`video_sink::VideoSink`]).
//!
//! The host environment (rendering, asset loading, task spawning) is expected
//! to live outside this crate: it feeds raw container bytes in, runs the
//! decode loop that the state machine prescribes, and polls the sink once per
//! tick for the next due frame.

pub mod convert;
pub mod frame;
pub mod ivf;
pub mod picture;
pub mod video;
pub mod video_sink;
pub mod worker;
