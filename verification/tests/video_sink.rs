//! Frame pacing: the due/ahead/stale policy of the sink.

use av1_video::frame::VideoFrame;
use av1_video::video_sink::{TargetAsset, VideoSink, VideoTargetAssets};
use av1_video::worker::{DecodeWorker, WorkerAction, WorkerEvent, WorkerState};
use crossbeam_channel::{bounded, Sender};

/// One frame duration at timebase (1, 30), in nanoseconds.
const FRAME: u64 = 33_333_333;
/// An arbitrary wall-clock origin, in nanoseconds.
const T0: u64 = 5_000_000_000;

fn frame(ts: u64) -> VideoFrame {
    VideoFrame { data: vec![0; 4], width: 1, height: 1, timestamp: ts }
}

fn sink_with_queue(cap: usize) -> (VideoSink, Sender<VideoFrame>) {
    let (tx, rx) = bounded(cap);
    (VideoSink::new((1, 30), 1, 1, rx), tx)
}

#[test]
fn queued_frame_at_time_zero_is_returned_then_nothing_due() {
    let (mut sink, tx) = sink_with_queue(1);
    tx.send(frame(0)).unwrap();
    let f = sink.next_frame(T0).unwrap();
    assert_eq!(f.timestamp, 0);
    // Queue and buffer are now empty: nothing is due.
    assert!(sink.next_frame(T0).is_none());
}

#[test]
fn empty_sink_reports_nothing_due() {
    let (mut sink, _tx) = sink_with_queue(1);
    assert!(sink.next_frame(T0).is_none());
}

#[test]
fn ahead_frame_is_buffered_then_returned_once_due() {
    let (mut sink, tx) = sink_with_queue(1);
    tx.send(frame(0)).unwrap();
    assert_eq!(sink.next_frame(T0).unwrap().timestamp, 0);

    // A frame half a second ahead arrives while elapsed is 50 ms:
    // 0.5 > 0.05 + 1/30, so it is parked and nothing is due.
    tx.send(frame(500_000_000)).unwrap();
    assert!(sink.next_frame(T0 + 50_000_000).is_none());
    // Once elapsed reaches 490 ms the same frame is inside its window.
    let f = sink.next_frame(T0 + 490_000_000).unwrap();
    assert_eq!(f.timestamp, 500_000_000);
}

#[test]
fn stale_frame_is_dropped_and_never_returned() {
    let (mut sink, tx) = sink_with_queue(2);
    tx.send(frame(0)).unwrap();
    assert_eq!(sink.next_frame(T0).unwrap().timestamp, 0);

    tx.send(frame(100_000_000)).unwrap();
    tx.send(frame(500_000_000)).unwrap();
    // At elapsed 500 ms the 100 ms frame is past its window and must be
    // skipped; the 500 ms frame is due.
    let f = sink.next_frame(T0 + 500_000_000).unwrap();
    assert_eq!(f.timestamp, 500_000_000);
    // The dropped frame never shows up later.
    assert!(sink.next_frame(T0 + 510_000_000).is_none());
}

#[test]
fn zero_timestamp_frame_resets_the_clock_reference() {
    let (mut sink, tx) = sink_with_queue(1);
    tx.send(frame(0)).unwrap();
    assert_eq!(sink.next_frame(T0).unwrap().timestamp, 0);
    tx.send(frame(FRAME)).unwrap();
    assert_eq!(sink.next_frame(T0 + FRAME).unwrap().timestamp, FRAME);

    // Ten seconds later a loop restarts: without the reset this frame would
    // be hopelessly stale, with it the frame is due immediately.
    let t1 = T0 + 10_000_000_000;
    tx.send(frame(0)).unwrap();
    assert_eq!(sink.next_frame(t1).unwrap().timestamp, 0);
    // And the following frame is paced against the new reference.
    tx.send(frame(FRAME)).unwrap();
    assert_eq!(sink.next_frame(t1 + FRAME).unwrap().timestamp, FRAME);
}

#[test]
fn frames_come_out_in_timestamp_order() {
    let (mut sink, tx) = sink_with_queue(2);
    tx.send(frame(0)).unwrap();
    let mut seen: Vec<u64> = Vec::new();
    seen.push(sink.next_frame(T0).unwrap().timestamp);
    tx.send(frame(FRAME)).unwrap();
    tx.send(frame(2 * FRAME)).unwrap();
    seen.push(sink.next_frame(T0 + 40_000_000).unwrap().timestamp);
    seen.push(sink.next_frame(T0 + 70_000_000).unwrap().timestamp);
    assert_eq!(seen, vec![0, FRAME, 2 * FRAME]);
}

#[test]
fn buffered_frame_is_taken_before_the_queue() {
    let (mut sink, tx) = sink_with_queue(1);
    // First poll parks a frame that is far ahead.
    tx.send(frame(200_000_000)).unwrap();
    assert!(sink.next_frame(T0).is_none());
    // A later frame sits in the queue behind it.
    tx.send(frame(233_333_333)).unwrap();
    // The buffered frame comes out first, then the queued one.
    assert_eq!(sink.next_frame(T0 + 200_000_000).unwrap().timestamp, 200_000_000);
    assert_eq!(sink.next_frame(T0 + 233_333_333).unwrap().timestamp, 233_333_333);
}

#[test]
fn long_stale_backlog_is_discarded_over_several_polls() {
    let (mut sink, tx) = sink_with_queue(128);
    tx.send(frame(0)).unwrap();
    assert_eq!(sink.next_frame(T0).unwrap().timestamp, 0);
    // A hundred long-stale frames sit in front of the one due frame; each
    // poll examines a bounded number of candidates, so the backlog is
    // discarded over a few ticks rather than in one.
    for ts in 1..=100 {
        tx.send(frame(ts)).unwrap();
    }
    let due: u64 = 10_000_000_000;
    tx.send(frame(due)).unwrap();
    let mut polls: u32 = 0;
    loop {
        polls += 1;
        assert!(polls < 10, "due frame never surfaced");
        if let Some(f) = sink.next_frame(T0 + due) {
            assert_eq!(f.timestamp, due);
            break;
        }
    }
    assert!(polls > 1, "the backlog cannot be cleared in a single poll");
}

#[test]
fn sink_reports_dimensions_and_frame_duration() {
    let (_tx, rx) = bounded(1);
    let sink = VideoSink::new((1, 30), 1280, 720, rx);
    assert_eq!(sink.width(), 1280);
    assert_eq!(sink.height(), 720);
    assert_eq!(sink.frame_duration(), FRAME);
}

#[test]
fn dropped_receiver_fails_the_send_and_worker_stops_cleanly() {
    let (tx, rx) = bounded::<VideoFrame>(1);
    drop(rx);
    // The producer's send fails once the consumer is gone...
    assert!(tx.send(frame(0)).is_err());
    // ...and the worker treats that as a clean stop, not an error.
    let mut w = DecodeWorker::new(true);
    w.step(WorkerEvent::PacketReady);
    w.step(WorkerEvent::SubmitAccepted);
    w.step(WorkerEvent::PictureReady);
    assert_eq!(w.step(WorkerEvent::QueueClosed), WorkerAction::Stop);
    assert_eq!(w.state(), WorkerState::Done);
    assert_eq!(w.outcome(), Some(Ok(())));
}

#[test]
fn target_registry_lists_targets_of_an_updated_image() {
    let mut reg = VideoTargetAssets::default();
    reg.add_target(10, 100);
    reg.add_target(11, 200);
    reg.add_target(10, 300);
    assert_eq!(reg.update_target_assets(10), vec![100, 300]);
    assert_eq!(reg.update_target_assets(11), vec![200]);
    assert_eq!(reg.update_target_assets(12), Vec::<u64>::new());
}

#[test]
fn target_registry_drops_entries_of_an_unused_image() {
    let mut reg = VideoTargetAssets::default();
    reg.add_target(10, 100);
    reg.add_target(11, 200);
    reg.add_target(10, 300);
    reg.remove_unused_image_target_assets(10);
    assert_eq!(reg.update_target_assets(10), Vec::<u64>::new());
    assert_eq!(reg.update_target_assets(11), vec![200]);
}

#[test]
fn target_registry_drops_entries_of_an_unused_target() {
    let mut reg = VideoTargetAssets::default();
    reg.add_target(10, 100);
    reg.add_target(10, 300);
    reg.remove_unused_target_assets(100);
    assert_eq!(reg.update_target_assets(10), vec![300]);
    let _ = TargetAsset { image_id: 1, target_asset_id: 2 };
}
