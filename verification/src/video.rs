//! Playback modes and end-of-playback policy.

use vstd::prelude::*;

verus! {

/// How a playback session behaves once its stream has been fully presented.
#[derive(Debug, Clone, Copy, PartialEq, Eq, Structural)]
pub enum PlaybackMode {
    /// Repeat the video forever.
    Loop,
    /// Destroy the owning object when the video finishes playing.
    Despawn,
    /// Remove the playback components from the owning object when the video
    /// finishes playing.
    Remove,
}

/// What the host does with a fully drained session, per playback mode.
#[derive(Debug, Clone, Copy, PartialEq, Eq, Structural)]
pub enum DrainDisposition {
    /// Strip the playback components and keep the owning object.
    RemoveComponents,
    /// Destroy the owning object outright.
    Despawn,
    /// Clear the draining mark and go back to idle; the looping worker keeps
    /// feeding frames.
    ResumeIdle,
}

/// Whether the decode worker should rewind at end of stream instead of
/// stopping.
pub fn is_looping(mode: PlaybackMode) -> (r: bool)
    ensures
        r == (mode == PlaybackMode::Loop),
{
    matches!(mode, PlaybackMode::Loop)
}

/// Decides what the host does once a draining session reports that no frame
/// is due and nothing is left in queue or buffer.
pub fn drain_disposition(mode: PlaybackMode) -> (r: DrainDisposition)
    ensures
        mode == PlaybackMode::Remove ==> r == DrainDisposition::RemoveComponents,
        mode == PlaybackMode::Despawn ==> r == DrainDisposition::Despawn,
        mode == PlaybackMode::Loop ==> r == DrainDisposition::ResumeIdle,
{
    match mode {
        PlaybackMode::Remove => DrainDisposition::RemoveComponents,
        PlaybackMode::Despawn => DrainDisposition::Despawn,
        PlaybackMode::Loop => DrainDisposition::ResumeIdle,
    }
}

} // verus!
