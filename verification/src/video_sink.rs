//! The consuming side of a playback session: frame pacing and target
//! bookkeeping.
//!
//! A [`VideoSink`] owns the receiving end of the bounded frame queue, a
//! single-slot lookahead buffer, and the wall-clock reference of the current
//! loop iteration. Once per host tick, [`VideoSink::next_frame`] decides
//! whether a frame is due now, ahead of schedule, or stale.
//!
//! The queue's contents depend on a producer thread, so the contracts on
//! [`VideoSink::next_frame`] speak of whatever candidates it happened to
//! take. The spec functions around [`first_live`] model the same decision
//! sequence over the frames pending in arrival order, and
//! [`lemma_presented_in_order`] shows that the policy presents frames in
//! timestamp order whenever they arrive in timestamp order.

use vstd::prelude::*;

use crate::frame::{spec_frame_duration_nanos, VideoFrame};

verus! {

#[verifier::external_type_specification]
#[verifier::external_body]
#[verifier::reject_recursive_types(T)]
pub struct ExReceiver<T>(crossbeam_channel::Receiver<T>);

/// Relies on crossbeam_channel::Receiver::try_recv: returns a frame if one
/// sits in the queue, without blocking. Nothing is promised of the result:
/// what arrives, and when, depends on the producer thread.
#[verifier::external_body]
fn try_recv_frame(rx: &crossbeam_channel::Receiver<VideoFrame>) -> (r: Option<VideoFrame>) {
    rx.try_recv().ok()
}

/// The frame is ahead of schedule: its time has not come yet.
pub open spec fn is_ahead(ts: u64, elapsed: int, dur: u64) -> bool {
    ts > elapsed + dur
}

/// The frame is stale: its presentation window has already passed.
pub open spec fn is_stale(ts: u64, elapsed: int, dur: u64) -> bool {
    ts + dur < elapsed
}

/// The frame is due now: neither ahead of schedule nor stale.
pub open spec fn is_due(ts: u64, elapsed: int, dur: u64) -> bool {
    !is_ahead(ts, elapsed, dur) && !is_stale(ts, elapsed, dur)
}

/// The wall-clock reference a poll at `now` measures elapsed time against:
/// the stored reference when one is set, else `now` itself, which the poll
/// then adopts.
pub open spec fn spec_effective_start(start: Option<u64>, now: u64) -> u64 {
    match start {
        Some(s) => s,
        None => now,
    }
}

/// How many queue candidates one `next_frame` call examines at most, so that
/// each tick does a bounded amount of work; a longer backlog of stale frames
/// is discarded over the following ticks.
pub const POLL_BUDGET: usize = 64;

/// The consuming half of a playback session.
///
/// The lookahead buffer is a single `Option` slot, so it can never hold more
/// than one frame.
pub struct VideoSink {
    rx: crossbeam_channel::Receiver<VideoFrame>,
    width: u32,
    height: u32,
    frame_duration: u64,
    buffered_frame: Option<VideoFrame>,
    start_timestamp: Option<u64>,
}

impl VideoSink {
    /// Frame width in pixels.
    pub closed spec fn spec_width(self) -> u32 {
        self.width
    }

    /// Frame height in pixels.
    pub closed spec fn spec_height(self) -> u32 {
        self.height
    }

    /// Duration of one frame in nanoseconds.
    pub closed spec fn spec_frame_duration(self) -> u64 {
        self.frame_duration
    }

    /// The lookahead buffer's content.
    pub closed spec fn spec_buffered(self) -> Option<VideoFrame> {
        self.buffered_frame
    }

    /// The wall-clock time, in nanoseconds, at which the current loop
    /// iteration started playing, once known.
    pub closed spec fn spec_start(self) -> Option<u64> {
        self.start_timestamp
    }

    /// A new sink for a session with the given container timebase and frame
    /// dimensions, reading frames from `rx`. The lookahead buffer starts
    /// empty and the wall-clock reference unset.
    pub fn new(
        timebase: (u32, u32),
        width: u32,
        height: u32,
        rx: crossbeam_channel::Receiver<VideoFrame>,
    ) -> (sink: VideoSink)
        requires
            timebase.1 > 0,
        ensures
            sink.spec_width() == width,
            sink.spec_height() == height,
            sink.spec_frame_duration() == spec_frame_duration_nanos(timebase.0, timebase.1),
            sink.spec_buffered() is None,
            sink.spec_start() is None,
    {
        let frame_duration = crate::frame::frame_duration_nanos(timebase.0, timebase.1);
        VideoSink {
            rx,
            width,
            height,
            frame_duration,
            buffered_frame: None,
            start_timestamp: None,
        }
    }

    /// Frame width in pixels.
    pub fn width(&self) -> (r: u32)
        ensures
            r == self.spec_width(),
    {
        self.width
    }

    /// Frame height in pixels.
    pub fn height(&self) -> (r: u32)
        ensures
            r == self.spec_height(),
    {
        self.height
    }

    /// Duration of one frame in nanoseconds.
    pub fn frame_duration(&self) -> (r: u64)
        ensures
            r == self.spec_frame_duration(),
    {
        self.frame_duration
    }

    /// Whether a frame sits in the lookahead buffer. While draining a
    /// finished session, the host keeps polling until nothing is due, the
    /// queue is empty and this reports false.
    pub fn has_buffered_frame(&self) -> (r: bool)
        ensures
            r == (self.spec_buffered() is Some),
    {
        self.buffered_frame.is_some()
    }

    /// Takes the next candidate frame: the buffered one if present, else
    /// whatever the queue holds right now. A frame with timestamp zero marks
    /// the start of a new loop iteration and clears the wall-clock reference.
    fn fetch_frame(&mut self) -> (r: Option<VideoFrame>)
        ensures
            final(self).spec_width() == old(self).spec_width(),
            final(self).spec_height() == old(self).spec_height(),
            final(self).spec_frame_duration() == old(self).spec_frame_duration(),
            final(self).spec_buffered() is None,
            old(self).spec_buffered() matches Some(b) ==> r == Some(b),
            r matches Some(f) ==> {
                &&& f.timestamp == 0 ==> final(self).spec_start() is None
                &&& f.timestamp != 0 ==> final(self).spec_start() == old(self).spec_start()
            },
            r is None ==> final(self).spec_start() == old(self).spec_start()
                && old(self).spec_buffered() is None,
    {
        let buffered = self.buffered_frame.take();
        let frame = match buffered {
            Some(f) => f,
            None => {
                match try_recv_frame(&self.rx) {
                    Some(f) => f,
                    None => {
                        return None;
                    },
                }
            },
        };
        if frame.timestamp == 0 {
            self.start_timestamp = None;
        }
        Some(frame)
    }

    /// Decides, at wall-clock time `current_time` (nanoseconds), whether a
    /// frame is due for presentation.
    ///
    /// Candidates are taken in arrival order, the buffered frame first. A
    /// stale frame — its presentation window already passed — is dropped and
    /// never returned. A frame ahead of schedule is parked in the lookahead
    /// buffer and nothing is returned. A frame inside its window is returned.
    /// The wall-clock reference is set on the first call and reset by a frame
    /// with timestamp zero, the loop-restart signal; such a frame is always
    /// due immediately.
    pub fn next_frame(&mut self, current_time: u64) -> (r: Option<VideoFrame>)
        requires
            old(self).spec_start() matches Some(s) ==> s <= current_time,
        ensures
            final(self).spec_width() == old(self).spec_width(),
            final(self).spec_height() == old(self).spec_height(),
            final(self).spec_frame_duration() == old(self).spec_frame_duration(),
            final(self).spec_start() matches Some(s) ==> s <= current_time,
            r matches Some(f) ==> {
                &&& final(self).spec_start() matches Some(s) && is_due(
                    f.timestamp,
                    current_time - s,
                    old(self).spec_frame_duration(),
                )
                &&& final(self).spec_buffered() is None
                &&& f.timestamp == 0 ==> final(self).spec_start() == Some(current_time)
            },
            final(self).spec_buffered() matches Some(b) ==> {
                &&& r is None
                &&& final(self).spec_start() matches Some(s) && is_ahead(
                    b.timestamp,
                    current_time - s,
                    old(self).spec_frame_duration(),
                )
            },
            old(self).spec_buffered() matches Some(b) ==> (b.timestamp == 0 ==> r == Some(b)
                && final(self).spec_start() == Some(current_time)),
            old(self).spec_buffered() matches Some(b) ==> (b.timestamp != 0 ==> {
                let s0 = spec_effective_start(old(self).spec_start(), current_time);
                let dur = old(self).spec_frame_duration();
                &&& is_ahead(b.timestamp, current_time - s0, dur) ==> r is None
                    && final(self).spec_buffered() == Some(b)
                    && final(self).spec_start() == Some(s0)
                &&& is_due(b.timestamp, current_time - s0, dur) ==> r == Some(b)
                    && final(self).spec_start() == Some(s0)
            }),
            old(self).spec_start() is None ==> (r matches Some(f) ==> final(self).spec_start()
                == Some(current_time)),
    {
        let mut budget: usize = POLL_BUDGET;
        loop
            invariant
                budget <= POLL_BUDGET,
                self.spec_width() == old(self).spec_width(),
                self.spec_height() == old(self).spec_height(),
                self.spec_frame_duration() == old(self).spec_frame_duration(),
                self.spec_start() matches Some(s) ==> s <= current_time,
                budget == POLL_BUDGET ==> self.spec_buffered() == old(self).spec_buffered()
                    && self.spec_start() == old(self).spec_start(),
                budget < POLL_BUDGET ==> self.spec_buffered() is None,
                old(self).spec_buffered() matches Some(b) ==> (b.timestamp == 0 ==> budget
                    == POLL_BUDGET),
                budget < POLL_BUDGET ==> (old(self).spec_buffered() matches Some(b)
                    ==> is_stale(
                    b.timestamp,
                    current_time - spec_effective_start(old(self).spec_start(), current_time),
                    old(self).spec_frame_duration(),
                )),
                old(self).spec_start() is None ==> (self.spec_start() matches Some(s) ==> s
                    == current_time),
            decreases budget,
        {
            if budget == 0 {
                return None;
            }
            budget = budget - 1;
            let frame = match self.fetch_frame() {
                Some(f) => f,
                None => {
                    return None;
                },
            };
            let start: u64 = match self.start_timestamp {
                Some(s) => s,
                None => {
                    self.start_timestamp = Some(current_time);
                    current_time
                },
            };
            let elapsed: u64 = current_time - start;
            if frame.timestamp as u128 > elapsed as u128 + self.frame_duration as u128 {
                // Ahead of schedule: park it and report nothing due.
                self.buffered_frame = Some(frame);
                return None;
            }
            if (frame.timestamp as u128) + (self.frame_duration as u128) < elapsed as u128 {
                // Stale: drop it and look at the next candidate.
                continue;
            }
            return Some(frame);
        }
    }
}


/// The pending frames arrive in non-decreasing timestamp order.
pub open spec fn timestamps_sorted(pending: Seq<u64>) -> bool {
    forall|i: int, j: int| 0 <= i <= j < pending.len() ==> pending[i] <= pending[j]
}

/// The index of the first pending frame that is not stale, scanning in
/// arrival order; `pending.len()` when every pending frame is stale.
pub open spec fn first_live(pending: Seq<u64>, elapsed: int, dur: u64) -> int
    decreases pending.len(),
{
    if pending.len() == 0 {
        0
    } else if is_stale(pending[0], elapsed, dur) {
        1 + first_live(pending.subrange(1, pending.len() as int), elapsed, dur)
    } else {
        0
    }
}

/// The index into `pending` of the frame one poll presents: the first
/// candidate in arrival order that is not stale, provided it is not ahead of
/// schedule either. `None` when the poll presents nothing — every candidate
/// is stale, or the first live one is still ahead and goes to the buffer.
pub open spec fn spec_poll_presents(pending: Seq<u64>, elapsed: int, dur: u64) -> Option<int> {
    let i = first_live(pending, elapsed, dur);
    if i < pending.len() && !is_ahead(pending[i], elapsed, dur) {
        Some(i)
    } else {
        None
    }
}

/// The frames still pending after one poll: stale candidates are gone, a
/// presented frame is gone, and a frame parked in the lookahead buffer is
/// still pending — it stays first in line for the next poll.
pub open spec fn spec_poll_rest(pending: Seq<u64>, elapsed: int, dur: u64) -> Seq<u64> {
    let i = first_live(pending, elapsed, dur);
    if i >= pending.len() {
        Seq::empty()
    } else if is_ahead(pending[i], elapsed, dur) {
        pending.subrange(i, pending.len() as int)
    } else {
        pending.subrange(i + 1, pending.len() as int)
    }
}

/// Everything before the first live frame is stale, and the first live frame
/// itself is not.
proof fn lemma_first_live_bounds(pending: Seq<u64>, elapsed: int, dur: u64)
    ensures
        0 <= first_live(pending, elapsed, dur) <= pending.len(),
        forall|k: int|
            0 <= k < first_live(pending, elapsed, dur) ==> is_stale(pending[k], elapsed, dur),
        first_live(pending, elapsed, dur) < pending.len() ==> !is_stale(
            pending[first_live(pending, elapsed, dur)],
            elapsed,
            dur,
        ),
    decreases pending.len(),
{
    if pending.len() == 0 {
    } else if is_stale(pending[0], elapsed, dur) {
        let sub = pending.subrange(1, pending.len() as int);
        lemma_first_live_bounds(sub, elapsed, dur);
        assert forall|k: int|
            0 <= k < first_live(pending, elapsed, dur) implies is_stale(
            pending[k],
            elapsed,
            dur,
        ) by {
            if k >= 1 {
                assert(sub[k - 1] == pending[k]);
            }
        }
    }
}

/// One poll presents only a frame that is due at its clock reading, and it
/// drops exactly the stale frames in front of it.
pub proof fn lemma_poll_presents_due(pending: Seq<u64>, elapsed: int, dur: u64)
    ensures
        spec_poll_presents(pending, elapsed, dur) matches Some(i) ==> {
            &&& 0 <= i < pending.len()
            &&& is_due(pending[i], elapsed, dur)
            &&& forall|k: int| 0 <= k < i ==> is_stale(pending[k], elapsed, dur)
        },
{
    lemma_first_live_bounds(pending, elapsed, dur);
}

/// Frames are presented in timestamp order: when the frames pending in one
/// loop iteration arrive in non-decreasing timestamp order, the frame one
/// poll presents is never older than the frame the previous poll presented,
/// whatever the two polls' clock readings. A poll consumes candidates
/// strictly in arrival order — the buffered frame first, then the queue — so
/// every presented frame lies later in the stream than the one before it.
pub proof fn lemma_presented_in_order(pending: Seq<u64>, e1: int, e2: int, dur: u64)
    requires
        timestamps_sorted(pending),
    ensures
        spec_poll_presents(pending, e1, dur) matches Some(i1) ==> (spec_poll_presents(
            spec_poll_rest(pending, e1, dur),
            e2,
            dur,
        ) matches Some(i2) ==> pending[i1] <= spec_poll_rest(pending, e1, dur)[i2]),
{
    lemma_first_live_bounds(pending, e1, dur);
    let rest = spec_poll_rest(pending, e1, dur);
    lemma_first_live_bounds(rest, e2, dur);
    match spec_poll_presents(pending, e1, dur) {
        Some(i1) => {
            match spec_poll_presents(rest, e2, dur) {
                Some(i2) => {
                    assert(rest == pending.subrange(i1 + 1, pending.len() as int));
                    assert(rest[i2] == pending[i1 + 1 + i2]);
                    assert(pending[i1] <= pending[i1 + 1 + i2]);
                },
                None => {},
            }
        },
        None => {},
    }
}

/// What one poll leaves pending is still in arrival order, so
/// [`lemma_presented_in_order`] applies again to the next poll: by induction,
/// any chain of polls within one loop iteration presents frames in
/// non-decreasing timestamp order.
pub proof fn lemma_poll_rest_sorted(pending: Seq<u64>, elapsed: int, dur: u64)
    requires
        timestamps_sorted(pending),
    ensures
        timestamps_sorted(spec_poll_rest(pending, elapsed, dur)),
{
    lemma_first_live_bounds(pending, elapsed, dur);
    let rest = spec_poll_rest(pending, elapsed, dur);
    assert forall|i: int, j: int| 0 <= i <= j < rest.len() implies rest[i] <= rest[j] by {
        let k = first_live(pending, elapsed, dur);
        if k < pending.len() {
            if is_ahead(pending[k], elapsed, dur) {
                assert(rest[i] == pending[k + i]);
                assert(rest[j] == pending[k + j]);
            } else {
                assert(rest[i] == pending[k + 1 + i]);
                assert(rest[j] == pending[k + 1 + j]);
            }
        }
    }
}

/// One registered dependency: the asset `target_asset_id` must be refreshed
/// whenever the video image `image_id` is updated.
#[derive(Debug, Clone, Copy, PartialEq, Eq, Structural)]
pub struct TargetAsset {
    pub image_id: u64,
    pub target_asset_id: u64,
}

/// The target-asset ids registered for `image_id`, in registration order.
pub open spec fn spec_targets_of(s: Seq<TargetAsset>, image_id: u64) -> Seq<u64>
    decreases s.len(),
{
    if s.len() == 0 {
        Seq::empty()
    } else {
        let rest = spec_targets_of(s.drop_last(), image_id);
        if s.last().image_id == image_id {
            rest.push(s.last().target_asset_id)
        } else {
            rest
        }
    }
}

/// The entries left after dropping every dependency on image `image_id`.
pub open spec fn spec_without_image(s: Seq<TargetAsset>, image_id: u64) -> Seq<TargetAsset>
    decreases s.len(),
{
    if s.len() == 0 {
        Seq::empty()
    } else {
        let rest = spec_without_image(s.drop_last(), image_id);
        if s.last().image_id == image_id {
            rest
        } else {
            rest.push(s.last())
        }
    }
}

/// The entries left after dropping every dependency of target asset
/// `target_asset_id`.
pub open spec fn spec_without_target(s: Seq<TargetAsset>, target_asset_id: u64) -> Seq<TargetAsset>
    decreases s.len(),
{
    if s.len() == 0 {
        Seq::empty()
    } else {
        let rest = spec_without_target(s.drop_last(), target_asset_id);
        if s.last().target_asset_id == target_asset_id {
            rest
        } else {
            rest.push(s.last())
        }
    }
}

/// Registry of assets that depend on a video image, so the host can refresh
/// them whenever a new frame lands in that image.
pub struct VideoTargetAssets {
    entries: Vec<TargetAsset>,
}

impl Default for VideoTargetAssets {
    /// An empty registry.
    fn default() -> (r: VideoTargetAssets)
        ensures
            r.spec_entries().len() == 0,
    {
        VideoTargetAssets { entries: Vec::new() }
    }
}

impl VideoTargetAssets {
    /// The registered dependencies, in registration order.
    pub closed spec fn spec_entries(self) -> Seq<TargetAsset> {
        self.entries@
    }

    /// Registers a target asset that depends on the video image: the host
    /// must refresh it whenever that image is updated.
    pub fn add_target(&mut self, image_id: u64, target_asset_id: u64)
        ensures
            final(self).spec_entries() == old(self).spec_entries().push(
                TargetAsset { image_id, target_asset_id },
            ),
    {
        self.entries.push(TargetAsset { image_id, target_asset_id });
    }

    /// The target assets to refresh because image `image_id` was updated, in
    /// registration order.
    pub fn update_target_assets(&self, image_id: u64) -> (r: Vec<u64>)
        ensures
            r@ == spec_targets_of(self.spec_entries(), image_id),
    {
        let n = self.entries.len();
        let mut r: Vec<u64> = Vec::new();
        let mut i: usize = 0;
        while i < n
            invariant
                i <= n,
                n == self.entries@.len(),
                r@ == spec_targets_of(self.entries@.subrange(0, i as int), image_id),
            decreases n - i,
        {
            let e = self.entries[i];
            proof {
                assert(self.entries@.subrange(0, i + 1).drop_last() =~= self.entries@.subrange(
                    0,
                    i as int,
                ));
                assert(self.entries@.subrange(0, i + 1).last() == self.entries@[i as int]);
            }
            if e.image_id == image_id {
                r.push(e.target_asset_id);
            }
            i = i + 1;
        }
        proof {
            assert(self.entries@.subrange(0, n as int) =~= self.entries@);
        }
        r
    }

    /// Drops every dependency on image `image_id`; called when that image
    /// asset goes unused.
    pub fn remove_unused_image_target_assets(&mut self, image_id: u64)
        ensures
            final(self).spec_entries() == spec_without_image(old(self).spec_entries(), image_id),
    {
        let n = self.entries.len();
        let mut kept: Vec<TargetAsset> = Vec::new();
        let mut i: usize = 0;
        while i < n
            invariant
                i <= n,
                self.entries@ == old(self).spec_entries(),
                n == self.entries@.len(),
                kept@ == spec_without_image(self.entries@.subrange(0, i as int), image_id),
            decreases n - i,
        {
            let e = self.entries[i];
            proof {
                assert(self.entries@.subrange(0, i + 1).drop_last() =~= self.entries@.subrange(
                    0,
                    i as int,
                ));
                assert(self.entries@.subrange(0, i + 1).last() == self.entries@[i as int]);
            }
            if e.image_id != image_id {
                kept.push(e);
            }
            i = i + 1;
        }
        proof {
            assert(self.entries@.subrange(0, n as int) =~= self.entries@);
        }
        self.entries = kept;
    }

    /// Drops every dependency of target asset `target_asset_id`; called when
    /// that asset goes unused.
    pub fn remove_unused_target_assets(&mut self, target_asset_id: u64)
        ensures
            final(self).spec_entries() == spec_without_target(
                old(self).spec_entries(),
                target_asset_id,
            ),
    {
        let n = self.entries.len();
        let mut kept: Vec<TargetAsset> = Vec::new();
        let mut i: usize = 0;
        while i < n
            invariant
                i <= n,
                self.entries@ == old(self).spec_entries(),
                n == self.entries@.len(),
                kept@ == spec_without_target(self.entries@.subrange(0, i as int), target_asset_id),
            decreases n - i,
        {
            let e = self.entries[i];
            proof {
                assert(self.entries@.subrange(0, i + 1).drop_last() =~= self.entries@.subrange(
                    0,
                    i as int,
                ));
                assert(self.entries@.subrange(0, i + 1).last() == self.entries@[i as int]);
            }
            if e.target_asset_id != target_asset_id {
                kept.push(e);
            }
            i = i + 1;
        }
        proof {
            assert(self.entries@.subrange(0, n as int) =~= self.entries@);
        }
        self.entries = kept;
    }
}

} // verus!

