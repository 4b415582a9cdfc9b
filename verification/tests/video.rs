//! Playback-mode policy.

use av1_video::video::{drain_disposition, is_looping, DrainDisposition, PlaybackMode};

#[test]
fn only_loop_mode_loops() {
    assert!(is_looping(PlaybackMode::Loop));
    assert!(!is_looping(PlaybackMode::Remove));
    assert!(!is_looping(PlaybackMode::Despawn));
}

#[test]
fn drained_sessions_follow_their_playback_mode() {
    assert_eq!(drain_disposition(PlaybackMode::Remove), DrainDisposition::RemoveComponents);
    assert_eq!(drain_disposition(PlaybackMode::Despawn), DrainDisposition::Despawn);
    assert_eq!(drain_disposition(PlaybackMode::Loop), DrainDisposition::ResumeIdle);
}
