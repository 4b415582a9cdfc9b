//! The decode worker's feed/drain protocol as an explicit state machine.
//!
//! The worker pulls packets from the demuxer, submits them to the external
//! codec, drains decoded pictures, converts them and publishes the resulting
//! frames through a bounded queue. The codec signals backpressure when its
//! buffers are full; the protocol then drains pending pictures and re-submits
//! until the data is accepted. At end of stream the codec is flushed, and the
//! worker either rewinds the demuxer for looped playback or stops.
//!
//! The host's decode loop performs the outside work — the codec calls, the
//! queue send, the rewind — and feeds the outcome of each step back in as a
//! [`WorkerEvent`]; the machine answers with the next [`WorkerAction`]. Every
//! branching decision of the loop lives here, where it is verified.

use vstd::prelude::*;

use crate::convert::ConversionError;
use crate::ivf::ContainerError;

verus! {

/// A fatal error that ends a decode worker.
///
/// A closed frame queue is deliberately not an error: it means the consumer
/// went away, and the worker stops cleanly.
#[derive(Debug, Clone, Copy, PartialEq, Eq, Structural)]
pub enum Error {
    /// The container could not be opened.
    Demuxer(ContainerError),
    /// The codec reported a failure other than its backpressure signal.
    Decoder,
    /// A decoded picture could not be converted.
    Conversion(ConversionError),
}

/// Why the worker is currently draining pictures from the codec.
#[derive(Debug, Clone, Copy, PartialEq, Eq, Structural)]
pub enum DrainMode {
    /// The codec pushed back on a submit: drain, then retry the pending data.
    Clearing,
    /// The single non-exhaustive pass after an accepted submit, keeping
    /// codec-side buffering bounded before the next packet.
    PostSubmit,
    /// The exhaustive drain at end of stream, recovering pictures buffered in
    /// the codec's lookahead window.
    Flush,
}

/// Where the worker stands in the feed/drain protocol.
#[derive(Debug, Clone, Copy, PartialEq, Eq, Structural)]
pub enum WorkerState {
    /// About to read the next packet from the demuxer.
    Feeding,
    /// A packet was handed to the codec; waiting for accept or backpressure.
    AwaitingSubmit,
    /// Asking the codec for a decoded picture.
    Draining(DrainMode),
    /// Re-submitting data the codec did not consume.
    AwaitingPending,
    /// A picture came out; converting it and sending the frame.
    Sending(DrainMode),
    /// The stream ended, or the consumer went away; nothing more to do.
    Done,
    /// A fatal error ended the worker.
    Failed(Error),
}

/// The outcome of the outside work the host just performed.
#[derive(Debug, Clone, Copy, PartialEq, Eq, Structural)]
pub enum WorkerEvent {
    /// The demuxer yielded a packet.
    PacketReady,
    /// The demuxer reached the end of the stream (or a truncated record).
    EndOfStream,
    /// The codec accepted the submitted packet.
    SubmitAccepted,
    /// The codec's buffers are full; it kept the data as pending.
    SubmitBackpressure,
    /// The codec rejected the packet with a real error.
    SubmitFailed,
    /// Re-submitting the pending data succeeded.
    PendingAccepted,
    /// The codec still pushes back on the pending data.
    PendingBackpressure,
    /// Re-submitting the pending data failed with a real error.
    PendingFailed,
    /// The codec produced a decoded picture.
    PictureReady,
    /// The codec needs more input before it can decode further pictures.
    NoOutputYet,
    /// Querying the codec for a picture failed with a real error.
    PictureFailed,
    /// The converted frame was accepted by the queue.
    FrameSent,
    /// The queue's receiving end is gone; the consumer stopped listening.
    QueueClosed,
    /// Converting the decoded picture failed.
    ConversionFailed(ConversionError),
}

/// What the host's decode loop must do next.
#[derive(Debug, Clone, Copy, PartialEq, Eq, Structural)]
pub enum WorkerAction {
    /// Read the next packet from the demuxer.
    ReadPacket,
    /// Submit the packet just read to the codec.
    SubmitPacket,
    /// Re-submit the data the codec kept as pending.
    SendPendingData,
    /// Ask the codec for a decoded picture.
    TakePicture,
    /// Convert the picture just taken and send the frame on the queue.
    PublishFrame,
    /// Rewind the demuxer to the first packet, then read it.
    Rewind,
    /// Stop the loop; the worker is finished.
    Stop,
}

/// Whether `ev` is an outcome the protocol can produce in state `s`.
pub open spec fn expects(s: WorkerState, ev: WorkerEvent) -> bool {
    match s {
        WorkerState::Feeding => ev is PacketReady || ev is EndOfStream,
        WorkerState::AwaitingSubmit => ev is SubmitAccepted || ev is SubmitBackpressure
            || ev is SubmitFailed,
        WorkerState::Draining(_) => ev is PictureReady || ev is NoOutputYet
            || ev is PictureFailed,
        WorkerState::AwaitingPending => ev is PendingAccepted || ev is PendingBackpressure
            || ev is PendingFailed,
        WorkerState::Sending(_) => ev is FrameSent || ev is QueueClosed
            || ev is ConversionFailed,
        WorkerState::Done => false,
        WorkerState::Failed(_) => false,
    }
}

/// The state the protocol moves to on event `ev`.
pub open spec fn spec_step_state(s: WorkerState, looping: bool, ev: WorkerEvent) -> WorkerState {
    match (s, ev) {
        (WorkerState::Feeding, WorkerEvent::PacketReady) => WorkerState::AwaitingSubmit,
        (WorkerState::Feeding, WorkerEvent::EndOfStream) => WorkerState::Draining(
            DrainMode::Flush,
        ),
        (WorkerState::AwaitingSubmit, WorkerEvent::SubmitAccepted) => WorkerState::Draining(
            DrainMode::PostSubmit,
        ),
        (WorkerState::AwaitingSubmit, WorkerEvent::SubmitBackpressure) => WorkerState::Draining(
            DrainMode::Clearing,
        ),
        (WorkerState::AwaitingSubmit, WorkerEvent::SubmitFailed) => WorkerState::Failed(
            Error::Decoder,
        ),
        (WorkerState::Draining(m), WorkerEvent::PictureReady) => WorkerState::Sending(m),
        (WorkerState::Draining(DrainMode::Clearing), WorkerEvent::NoOutputYet) =>
            WorkerState::AwaitingPending,
        (WorkerState::Draining(DrainMode::PostSubmit), WorkerEvent::NoOutputYet) =>
            WorkerState::Feeding,
        (WorkerState::Draining(DrainMode::Flush), WorkerEvent::NoOutputYet) => if looping {
            WorkerState::Feeding
        } else {
            WorkerState::Done
        },
        (WorkerState::Draining(_), WorkerEvent::PictureFailed) => WorkerState::Failed(
            Error::Decoder,
        ),
        (WorkerState::AwaitingPending, WorkerEvent::PendingAccepted) => WorkerState::Draining(
            DrainMode::PostSubmit,
        ),
        (WorkerState::AwaitingPending, WorkerEvent::PendingBackpressure) => WorkerState::Draining(
            DrainMode::Clearing,
        ),
        (WorkerState::AwaitingPending, WorkerEvent::PendingFailed) => WorkerState::Failed(
            Error::Decoder,
        ),
        (WorkerState::Sending(DrainMode::Clearing), WorkerEvent::FrameSent) =>
            WorkerState::AwaitingPending,
        (WorkerState::Sending(DrainMode::PostSubmit), WorkerEvent::FrameSent) =>
            WorkerState::Feeding,
        (WorkerState::Sending(DrainMode::Flush), WorkerEvent::FrameSent) => WorkerState::Draining(
            DrainMode::Flush,
        ),
        (WorkerState::Sending(_), WorkerEvent::QueueClosed) => WorkerState::Done,
        (WorkerState::Sending(_), WorkerEvent::ConversionFailed(e)) => WorkerState::Failed(
            Error::Conversion(e),
        ),
        _ => s,
    }
}

/// The outside work the host must perform from state `s`.
pub open spec fn spec_action_of(s: WorkerState, looping: bool, ev: WorkerEvent) -> WorkerAction {
    match spec_step_state(s, looping, ev) {
        WorkerState::Feeding => if s == WorkerState::Draining(DrainMode::Flush)
            && ev is NoOutputYet && looping {
            WorkerAction::Rewind
        } else {
            WorkerAction::ReadPacket
        },
        WorkerState::AwaitingSubmit => WorkerAction::SubmitPacket,
        WorkerState::Draining(_) => WorkerAction::TakePicture,
        WorkerState::AwaitingPending => WorkerAction::SendPendingData,
        WorkerState::Sending(_) => WorkerAction::PublishFrame,
        WorkerState::Done => WorkerAction::Stop,
        WorkerState::Failed(_) => WorkerAction::Stop,
    }
}

/// The decision half of the background decode worker.
///
/// One machine drives one playback session; the host's loop owns the demuxer,
/// the codec session and the queue sender, and consults the machine after
/// every outside call.
pub struct DecodeWorker {
    state: WorkerState,
    looping: bool,
}

impl DecodeWorker {
    /// Where the machine stands.
    pub closed spec fn spec_state(self) -> WorkerState {
        self.state
    }

    /// Whether the worker rewinds at end of stream instead of stopping.
    pub closed spec fn spec_looping(self) -> bool {
        self.looping
    }

    /// A fresh worker, ready to read the first packet.
    pub fn new(looping: bool) -> (w: DecodeWorker)
        ensures
            w.spec_state() == WorkerState::Feeding,
            w.spec_looping() == looping,
    {
        DecodeWorker { state: WorkerState::Feeding, looping }
    }

    /// Where the machine stands, for the host loop to inspect.
    pub fn state(&self) -> (s: WorkerState)
        ensures
            s == self.spec_state(),
    {
        self.state
    }

    /// Feeds the outcome of the last outside call into the machine and
    /// returns the next thing the loop must do.
    pub fn step(&mut self, ev: WorkerEvent) -> (a: WorkerAction)
        requires
            expects(old(self).spec_state(), ev),
        ensures
            final(self).spec_state() == spec_step_state(
                old(self).spec_state(),
                old(self).spec_looping(),
                ev,
            ),
            final(self).spec_looping() == old(self).spec_looping(),
            a == spec_action_of(old(self).spec_state(), old(self).spec_looping(), ev),
    {
        let next = match (self.state, ev) {
            (WorkerState::Feeding, WorkerEvent::PacketReady) => WorkerState::AwaitingSubmit,
            (WorkerState::Feeding, WorkerEvent::EndOfStream) => WorkerState::Draining(
                DrainMode::Flush,
            ),
            (WorkerState::AwaitingSubmit, WorkerEvent::SubmitAccepted) => WorkerState::Draining(
                DrainMode::PostSubmit,
            ),
            (WorkerState::AwaitingSubmit, WorkerEvent::SubmitBackpressure) => WorkerState::Draining(
                DrainMode::Clearing,
            ),
            (WorkerState::AwaitingSubmit, WorkerEvent::SubmitFailed) => WorkerState::Failed(
                Error::Decoder,
            ),
            (WorkerState::Draining(m), WorkerEvent::PictureReady) => WorkerState::Sending(m),
            (WorkerState::Draining(DrainMode::Clearing), WorkerEvent::NoOutputYet) =>
                WorkerState::AwaitingPending,
            (WorkerState::Draining(DrainMode::PostSubmit), WorkerEvent::NoOutputYet) =>
                WorkerState::Feeding,
            (WorkerState::Draining(DrainMode::Flush), WorkerEvent::NoOutputYet) => if self.looping {
                WorkerState::Feeding
            } else {
                WorkerState::Done
            },
            (WorkerState::Draining(_), WorkerEvent::PictureFailed) => WorkerState::Failed(
                Error::Decoder,
            ),
            (WorkerState::AwaitingPending, WorkerEvent::PendingAccepted) => WorkerState::Draining(
                DrainMode::PostSubmit,
            ),
            (WorkerState::AwaitingPending, WorkerEvent::PendingBackpressure) =>
                WorkerState::Draining(DrainMode::Clearing),
            (WorkerState::AwaitingPending, WorkerEvent::PendingFailed) => WorkerState::Failed(
                Error::Decoder,
            ),
            (WorkerState::Sending(DrainMode::Clearing), WorkerEvent::FrameSent) =>
                WorkerState::AwaitingPending,
            (WorkerState::Sending(DrainMode::PostSubmit), WorkerEvent::FrameSent) =>
                WorkerState::Feeding,
            (WorkerState::Sending(DrainMode::Flush), WorkerEvent::FrameSent) =>
                WorkerState::Draining(DrainMode::Flush),
            (WorkerState::Sending(_), WorkerEvent::QueueClosed) => WorkerState::Done,
            (WorkerState::Sending(_), WorkerEvent::ConversionFailed(e)) => WorkerState::Failed(
                Error::Conversion(e),
            ),
            _ => self.state,
        };
        let rewinding = matches!(self.state, WorkerState::Draining(DrainMode::Flush))
            && matches!(ev, WorkerEvent::NoOutputYet) && self.looping;
        self.state = next;
        match next {
            WorkerState::Feeding => if rewinding {
                WorkerAction::Rewind
            } else {
                WorkerAction::ReadPacket
            },
            WorkerState::AwaitingSubmit => WorkerAction::SubmitPacket,
            WorkerState::Draining(_) => WorkerAction::TakePicture,
            WorkerState::AwaitingPending => WorkerAction::SendPendingData,
            WorkerState::Sending(_) => WorkerAction::PublishFrame,
            WorkerState::Done => WorkerAction::Stop,
            WorkerState::Failed(_) => WorkerAction::Stop,
        }
    }

    /// The worker's terminal result: `None` while it still runs, `Ok` after a
    /// clean stop — end of stream or a closed queue — and the error after a
    /// fatal failure.
    pub fn outcome(&self) -> (r: Option<Result<(), Error>>)
        ensures
            r == match self.spec_state() {
                WorkerState::Done => Some(Ok::<(), Error>(())),
                WorkerState::Failed(e) => Some(Err::<(), Error>(e)),
                _ => None::<Result<(), Error>>,
            },
    {
        match self.state {
            WorkerState::Done => Some(Ok(())),
            WorkerState::Failed(e) => Some(Err(e)),
            _ => None,
        }
    }
}

} // verus!
