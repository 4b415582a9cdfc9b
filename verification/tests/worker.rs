//! The decode worker's feed/drain protocol.

use av1_video::convert::ConversionError;
use av1_video::worker::{DecodeWorker, DrainMode, Error, WorkerAction, WorkerEvent, WorkerState};

#[test]
fn plain_packet_flow_feeds_drains_and_reads_again() {
    let mut w = DecodeWorker::new(false);
    assert_eq!(w.state(), WorkerState::Feeding);
    assert_eq!(w.outcome(), None);

    // Packet read, submit accepted, one picture drained, next packet.
    assert_eq!(w.step(WorkerEvent::PacketReady), WorkerAction::SubmitPacket);
    assert_eq!(w.step(WorkerEvent::SubmitAccepted), WorkerAction::TakePicture);
    assert_eq!(w.state(), WorkerState::Draining(DrainMode::PostSubmit));
    assert_eq!(w.step(WorkerEvent::PictureReady), WorkerAction::PublishFrame);
    assert_eq!(w.step(WorkerEvent::FrameSent), WorkerAction::ReadPacket);
    assert_eq!(w.state(), WorkerState::Feeding);
}

#[test]
fn post_submit_drain_is_a_single_pass() {
    let mut w = DecodeWorker::new(false);
    w.step(WorkerEvent::PacketReady);
    w.step(WorkerEvent::SubmitAccepted);
    // No picture available: straight back to feeding, no retry.
    assert_eq!(w.step(WorkerEvent::NoOutputYet), WorkerAction::ReadPacket);
    assert_eq!(w.state(), WorkerState::Feeding);
}

#[test]
fn backpressure_drains_then_resends_until_accepted() {
    let mut w = DecodeWorker::new(false);
    w.step(WorkerEvent::PacketReady);
    // The codec pushes back: drain one pass, then resend pending data.
    assert_eq!(w.step(WorkerEvent::SubmitBackpressure), WorkerAction::TakePicture);
    assert_eq!(w.state(), WorkerState::Draining(DrainMode::Clearing));
    assert_eq!(w.step(WorkerEvent::PictureReady), WorkerAction::PublishFrame);
    assert_eq!(w.step(WorkerEvent::FrameSent), WorkerAction::SendPendingData);
    // Still pushing back: drain again, resend again.
    assert_eq!(w.step(WorkerEvent::PendingBackpressure), WorkerAction::TakePicture);
    assert_eq!(w.step(WorkerEvent::NoOutputYet), WorkerAction::SendPendingData);
    // Accepted: one more non-exhaustive pass, then the next packet.
    assert_eq!(w.step(WorkerEvent::PendingAccepted), WorkerAction::TakePicture);
    assert_eq!(w.state(), WorkerState::Draining(DrainMode::PostSubmit));
    assert_eq!(w.step(WorkerEvent::NoOutputYet), WorkerAction::ReadPacket);
}

#[test]
fn end_of_stream_flushes_until_exhausted_then_stops() {
    let mut w = DecodeWorker::new(false);
    assert_eq!(w.step(WorkerEvent::EndOfStream), WorkerAction::TakePicture);
    assert_eq!(w.state(), WorkerState::Draining(DrainMode::Flush));
    // The flush keeps taking pictures until the codec runs dry.
    assert_eq!(w.step(WorkerEvent::PictureReady), WorkerAction::PublishFrame);
    assert_eq!(w.step(WorkerEvent::FrameSent), WorkerAction::TakePicture);
    assert_eq!(w.step(WorkerEvent::PictureReady), WorkerAction::PublishFrame);
    assert_eq!(w.step(WorkerEvent::FrameSent), WorkerAction::TakePicture);
    assert_eq!(w.step(WorkerEvent::NoOutputYet), WorkerAction::Stop);
    assert_eq!(w.state(), WorkerState::Done);
    assert_eq!(w.outcome(), Some(Ok(())));
}

#[test]
fn looping_worker_rewinds_at_end_of_stream() {
    let mut w = DecodeWorker::new(true);
    w.step(WorkerEvent::EndOfStream);
    assert_eq!(w.step(WorkerEvent::NoOutputYet), WorkerAction::Rewind);
    assert_eq!(w.state(), WorkerState::Feeding);
    // The next iteration starts over with an ordinary packet read.
    assert_eq!(w.step(WorkerEvent::PacketReady), WorkerAction::SubmitPacket);
}

#[test]
fn closed_queue_is_a_clean_stop() {
    let mut w = DecodeWorker::new(true);
    w.step(WorkerEvent::PacketReady);
    w.step(WorkerEvent::SubmitAccepted);
    w.step(WorkerEvent::PictureReady);
    // The consumer dropped its receiver: stop cleanly, no error recorded.
    assert_eq!(w.step(WorkerEvent::QueueClosed), WorkerAction::Stop);
    assert_eq!(w.state(), WorkerState::Done);
    assert_eq!(w.outcome(), Some(Ok(())));
}

#[test]
fn decoder_failure_is_fatal() {
    let mut w = DecodeWorker::new(false);
    w.step(WorkerEvent::PacketReady);
    assert_eq!(w.step(WorkerEvent::SubmitFailed), WorkerAction::Stop);
    assert_eq!(w.state(), WorkerState::Failed(Error::Decoder));
    assert_eq!(w.outcome(), Some(Err(Error::Decoder)));
}

#[test]
fn picture_failure_during_flush_is_fatal() {
    let mut w = DecodeWorker::new(false);
    w.step(WorkerEvent::EndOfStream);
    assert_eq!(w.step(WorkerEvent::PictureFailed), WorkerAction::Stop);
    assert_eq!(w.outcome(), Some(Err(Error::Decoder)));
}

#[test]
fn pending_failure_is_fatal() {
    let mut w = DecodeWorker::new(false);
    w.step(WorkerEvent::PacketReady);
    w.step(WorkerEvent::SubmitBackpressure);
    w.step(WorkerEvent::NoOutputYet);
    assert_eq!(w.step(WorkerEvent::PendingFailed), WorkerAction::Stop);
    assert_eq!(w.outcome(), Some(Err(Error::Decoder)));
}

#[test]
fn conversion_failure_is_fatal() {
    let mut w = DecodeWorker::new(false);
    w.step(WorkerEvent::PacketReady);
    w.step(WorkerEvent::SubmitAccepted);
    w.step(WorkerEvent::PictureReady);
    let ev = WorkerEvent::ConversionFailed(ConversionError::UnsupportedDepth);
    assert_eq!(w.step(ev), WorkerAction::Stop);
    assert_eq!(
        w.outcome(),
        Some(Err(Error::Conversion(ConversionError::UnsupportedDepth)))
    );
}
