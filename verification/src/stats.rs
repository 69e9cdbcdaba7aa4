//! Client-local measurements of the video stream. Times are nanoseconds since
//! the creation of the ledger; clocks of two machines are never subtracted.
use crate::clock;
use std::collections::BTreeMap;
use std::time::Instant;
use vstd::prelude::*;

verus! {

/// The most frames that may wait for their decoded counterpart.
pub const MAX_PENDING: usize = 256;

/// A compressed frame on its way through the decoder.
#[derive(Clone, Copy, PartialEq, Eq, Structural, Debug)]
pub struct PendingFrame {
    pub received: u128,
    pub entered: Option<u128>,
    pub output: Option<u128>,
    pub group: u64,
}

/// The stages of one completed frame, in microseconds; zero where a stage was
/// not observed.
#[derive(Clone, Copy, PartialEq, Eq, Structural, Debug)]
pub struct Timings {
    pub total_us: u64,
    pub queue_us: u64,
    pub decoder_us: u64,
    pub conversion_us: u64,
}

pub struct StreamStats {
    pub decoder: String,
    pub origin: Instant,
    pub pending: BTreeMap<u64, PendingFrame>,
    pub last_key: u64,
    pub timings: Timings,
    pub received_bytes: u64,
    pub received_frames: u64,
    pub decoded_frames: u64,
    pub ready_frames: u64,
    pub unmatched_frames: u64,
    pub skipped_groups: u64,
    pub overwritten_frames: u64,
    pub decoder_queue_bytes: u64,
    pub decoder_recoveries: u64,
    pub stale_frames: u64,
}

#[derive(Clone, Copy, PartialEq, Eq, Structural, Debug)]
pub struct Snapshot {
    pub received_bytes: u64,
    pub received_frames: u64,
    pub decoded_frames: u64,
    pub unmatched_frames: u64,
    pub skipped_groups: u64,
    pub overwritten_frames: u64,
    pub decoder_queue_bytes: u64,
    pub decode_us: u64,
    pub queue_us: u64,
    pub decoder_us: u64,
    pub conversion_us: u64,
    pub decoder_recoveries: u64,
    pub stale_frames: u64,
}

impl Default for Snapshot {
    fn default() -> (r: Self)
        ensures
            r == (Snapshot {
                received_bytes: 0,
                received_frames: 0,
                decoded_frames: 0,
                unmatched_frames: 0,
                skipped_groups: 0,
                overwritten_frames: 0,
                decoder_queue_bytes: 0,
                decode_us: 0,
                queue_us: 0,
                decoder_us: 0,
                conversion_us: 0,
                decoder_recoveries: 0,
                stale_frames: 0,
            }),
    {
        Snapshot {
            received_bytes: 0,
            received_frames: 0,
            decoded_frames: 0,
            unmatched_frames: 0,
            skipped_groups: 0,
            overwritten_frames: 0,
            decoder_queue_bytes: 0,
            decode_us: 0,
            queue_us: 0,
            decoder_us: 0,
            conversion_us: 0,
            decoder_recoveries: 0,
            stale_frames: 0,
        }
    }
}

/// No stage observed.
pub open spec fn no_timings() -> Timings {
    Timings { total_us: 0, queue_us: 0, decoder_us: 0, conversion_us: 0 }
}

/// A span in whole microseconds, at least one so that an observed stage never
/// reads as a missing one, and at most what the counter holds. A clock that
/// seems to run backwards gives a span of zero nanoseconds.
pub open spec fn span_us(from: u128, to: u128) -> u64 {
    let nanos: int = if to >= from {
        to - from
    } else {
        0
    };
    let us = nanos / 1000;
    if us < 1 {
        1
    } else if us > u64::MAX {
        u64::MAX
    } else {
        us as u64
    }
}

fn span(from: u128, to: u128) -> (r: u64)
    ensures
        r == span_us(from, to),
{
    let nanos: u128 = if to >= from {
        to - from
    } else {
        0
    };
    let us: u128 = nanos / 1000;
    if us < 1 {
        1
    } else if us > u64::MAX as u128 {
        u64::MAX
    } else {
        us as u64
    }
}

/// The stages of a frame that is completed at `now`. All of them refer to that
/// frame: a missing time stamp stays missing.
pub open spec fn frame_timings(frame: PendingFrame, now: u128) -> Timings {
    Timings {
        total_us: span_us(frame.received, now),
        queue_us: match frame.entered {
            Some(entered) => span_us(frame.received, entered),
            None => 0,
        },
        decoder_us: match (frame.entered, frame.output) {
            (Some(entered), Some(output)) => span_us(entered, output),
            _ => 0,
        },
        conversion_us: match frame.output {
            Some(output) => span_us(output, now),
            None => 0,
        },
    }
}

/// The key of a frame received at `now` after a frame with key `last`: the time
/// in nanoseconds, or one more than the last key where the clock has not moved.
pub open spec fn next_key(now: u128, last: u64) -> u64 {
    let stamp: u64 = if now < u64::MAX {
        now as u64
    } else {
        (u64::MAX - 1) as u64
    };
    let least: u64 = if last < u64::MAX {
        (last + 1) as u64
    } else {
        u64::MAX
    };
    if stamp >= least {
        stamp
    } else {
        least
    }
}

/// `kept` is what remains of `all` once its oldest entry has left, where `all`
/// has outgrown the ledger; otherwise it is `all`.
pub open spec fn trimmed(all: Map<u64, PendingFrame>, kept: Map<u64, PendingFrame>) -> bool {
    if all.len() <= MAX_PENDING {
        kept == all
    } else {
        exists|least: u64|
            all.contains_key(least) && (forall|k: u64| #[trigger]
                all.contains_key(k) ==> least <= k) && kept == #[trigger] all.remove(least)
    }
}

/// The age of a frame at `now`, in nanoseconds.
pub open spec fn age(frame: PendingFrame, now: u128) -> u128 {
    if now >= frame.received {
        (now - frame.received) as u128
    } else {
        0
    }
}

/// `r` is the greatest age of the frames that satisfy `wanted`, if there are any.
pub open spec fn oldest_age(
    frames: Map<u64, PendingFrame>,
    wanted: spec_fn(PendingFrame) -> bool,
    now: u128,
    r: Option<u128>,
) -> bool {
    match r {
        None => forall|k: u64| #[trigger] frames.contains_key(k) ==> !wanted(frames[k]),
        Some(a) => {
            &&& exists|k: u64| #[trigger]
                frames.contains_key(k) && wanted(frames[k]) && age(frames[k], now) == a
            &&& forall|k: u64| #[trigger]
                frames.contains_key(k) && wanted(frames[k]) ==> age(frames[k], now) <= a
        },
    }
}

/// The frame has not left the decoder's input queue.
pub open spec fn queued(frame: PendingFrame) -> bool {
    frame.entered is None && frame.output is None
}

/// `r` is the greatest age among all frames.
pub open spec fn oldest_pending(
    frames: Map<u64, PendingFrame>,
    now: u128,
    r: Option<u128>,
) -> bool {
    oldest_age(frames, |f: PendingFrame| true, now, r)
}

/// `r` is the greatest age among the queued frames.
pub open spec fn oldest_queued(frames: Map<u64, PendingFrame>, now: u128, r: Option<u128>) -> bool {
    oldest_age(frames, |f: PendingFrame| queued(f), now, r)
}

/// A frame of this video group as it enters the ledger.
pub open spec fn received_frame(now: u128, group: u64) -> PendingFrame {
    PendingFrame { received: now, entered: None, output: None, group }
}

/// The frames after a report that the one with this key left the input queue.
pub open spec fn entered_frames(
    frames: Map<u64, PendingFrame>,
    key: u64,
    now: u128,
) -> Map<u64, PendingFrame> {
    if frames.contains_key(key) && queued(frames[key]) {
        frames.insert(key, PendingFrame { entered: Some(now), ..frames[key] })
    } else {
        frames
    }
}

/// The frames after a report that the one with this key left the decoder.
pub open spec fn output_frames(
    frames: Map<u64, PendingFrame>,
    key: u64,
    now: u128,
) -> Map<u64, PendingFrame> {
    if frames.contains_key(key) && frames[key].output is None {
        frames.insert(key, PendingFrame { output: Some(now), ..frames[key] })
    } else {
        frames
    }
}

/// `r` is the greatest age among the wanted frames with a key in `done`.
spec fn oldest_of(
    frames: Map<u64, PendingFrame>,
    done: Set<u64>,
    wanted: spec_fn(PendingFrame) -> bool,
    now: u128,
    r: Option<u128>,
) -> bool {
    match r {
        None => forall|k: u64| #[trigger] done.contains(k) ==> !wanted(frames[k]),
        Some(a) => {
            &&& exists|k: u64| #[trigger]
                done.contains(k) && wanted(frames[k]) && age(frames[k], now) == a
            &&& forall|k: u64| #[trigger]
                done.contains(k) && wanted(frames[k]) ==> age(frames[k], now) <= a
        },
    }
}

/// One more key is taken into account.
proof fn oldest_step(
    frames: Map<u64, PendingFrame>,
    done: Set<u64>,
    wanted: spec_fn(PendingFrame) -> bool,
    now: u128,
    before: Option<u128>,
    key: u64,
    after: Option<u128>,
)
    requires
        oldest_of(frames, done, wanted, now, before),
        after == if wanted(frames[key]) {
            match before {
                Some(b) if b >= age(frames[key], now) => before,
                _ => Some(age(frames[key], now)),
            }
        } else {
            before
        },
    ensures
        oldest_of(frames, done.insert(key), wanted, now, after),
{
    assert(done.insert(key).contains(key));
    if before is Some {
        let k = choose|k: u64| #[trigger]
            done.contains(k) && wanted(frames[k]) && age(frames[k], now) == before->0;
        assert(done.insert(key).contains(k));
    }
}

/// How long the frame with this key has waited at `now`, if it is waiting.
pub open spec fn age_of(frames: Map<u64, PendingFrame>, key: u64, now: u128) -> Option<u128> {
    if frames.contains_key(key) {
        Some(age(frames[key], now))
    } else {
        None
    }
}

fn span_nanos(frame: &PendingFrame, now: u128) -> (r: u128)
    ensures
        r == age(*frame, now),
{
    if now >= frame.received {
        now - frame.received
    } else {
        0
    }
}

fn greater(r: Option<u128>, a: u128) -> (s: Option<u128>)
    ensures
        s == Some(
            match r {
                Some(b) => if b >= a {
                    b
                } else {
                    a
                },
                None => a,
            },
        ),
{
    match r {
        Some(b) => if b >= a {
            Some(b)
        } else {
            Some(a)
        },
        None => Some(a),
    }
}

impl StreamStats {
    /// The frames that wait for their decoded counterpart, by key.
    pub open spec fn frames(&self) -> Map<u64, PendingFrame> {
        self.pending@
    }

    /// The key given out last; zero before the first.
    pub open spec fn key(&self) -> u64 {
        self.last_key
    }

    /// The stages of the frame decoded last.
    pub open spec fn last_timings(&self) -> Timings {
        self.timings
    }

    /// The ledger is bounded, and holds no key that was not given out.
    pub open spec fn wf(&self) -> bool {
        &&& self.frames().dom().finite()
        &&& self.frames().len() <= MAX_PENDING
        &&& forall|k: u64| #[trigger] self.frames().contains_key(k) ==> k <= self.key()
    }

    /// The counters that a caller keeps are those of `other`.
    pub open spec fn same_counters(&self, other: &StreamStats) -> bool {
        &&& self.decoder@ == other.decoder@
        &&& self.ready_frames == other.ready_frames
        &&& self.skipped_groups == other.skipped_groups
        &&& self.overwritten_frames == other.overwritten_frames
        &&& self.stale_frames == other.stale_frames
    }

    /// Nothing but the ledger of frames has changed since `other`.
    pub open spec fn only_frames_changed(&self, other: &StreamStats) -> bool {
        &&& self.key() == other.key()
        &&& self.snapshot_value() == other.snapshot_value()
        &&& self.same_counters(other)
    }

    pub open spec fn snapshot_value(&self) -> Snapshot {
        Snapshot {
            received_bytes: self.received_bytes,
            received_frames: self.received_frames,
            decoded_frames: self.decoded_frames,
            unmatched_frames: self.unmatched_frames,
            skipped_groups: self.skipped_groups,
            overwritten_frames: self.overwritten_frames,
            decoder_queue_bytes: self.decoder_queue_bytes,
            decode_us: self.timings.total_us,
            queue_us: self.timings.queue_us,
            decoder_us: self.timings.decoder_us,
            conversion_us: self.timings.conversion_us,
            decoder_recoveries: self.decoder_recoveries,
            stale_frames: self.stale_frames,
        }
    }

    /// What a decoded frame at `now` makes of `before`, and what is returned.
    pub open spec fn decoded_after(
        &self,
        before: &StreamStats,
        now: u128,
        pts: Option<u64>,
        r: Option<u64>,
    ) -> bool {
        &&& self.decoded_frames == before.decoded_frames.wrapping_add(1)
        &&& if pts is Some && before.frames().contains_key(pts->0) {
            &&& r == Some(before.frames()[pts->0].group)
            &&& self.frames() == before.frames().remove(pts->0)
            &&& self.last_timings() == frame_timings(before.frames()[pts->0], now)
            &&& self.unmatched_frames == before.unmatched_frames
        } else {
            &&& r is None
            &&& self.frames() == before.frames()
            &&& self.last_timings() == no_timings()
            &&& self.unmatched_frames == before.unmatched_frames.wrapping_add(1)
        }
        &&& self.received_bytes == before.received_bytes
        &&& self.received_frames == before.received_frames
        &&& self.decoder_queue_bytes == before.decoder_queue_bytes
        &&& self.decoder_recoveries == before.decoder_recoveries
        &&& self.same_counters(before)
    }

    /// The ledger once a frame was received.
    pub open spec fn took_in(
        self,
        now: u128,
        bytes: usize,
        video_group: u64,
        after: StreamStats,
        key: u64,
    ) -> bool {
        &&& key == next_key(now, self.key())
        &&& after.key() == key
        &&& key > self.key() || self.key() == u64::MAX
        &&& trimmed(
            self.frames().insert(key, received_frame(now, video_group)),
            after.frames(),
        )
        &&& after.frames().contains_key(key)
        &&& after.received_bytes == self.received_bytes.wrapping_add(bytes as u64)
        &&& after.received_frames == self.received_frames.wrapping_add(1)
        &&& after.decoded_frames == self.decoded_frames
        &&& after.unmatched_frames == self.unmatched_frames
        &&& after.decoder_queue_bytes == self.decoder_queue_bytes
        &&& after.decoder_recoveries == self.decoder_recoveries
        &&& after.last_timings() == self.last_timings()
        &&& after.same_counters(&self)
    }

    /// A frame of `bytes` bytes of video group `video_group` is received at `now`.
    /// Keys are never reused, not even when a completed frame or a recovery
    /// empties the ledger.
    pub fn received_at(&mut self, now: u128, bytes: usize, video_group: u64) -> (key: u64)
        requires
            old(self).wf(),
        ensures
            final(self).wf(),
            old(self).took_in(now, bytes, video_group, *final(self), key),
    {
        self.received_bytes = self.received_bytes.wrapping_add(bytes as u64);
        self.received_frames = self.received_frames.wrapping_add(1);
        let stamp: u64 = if now < u64::MAX as u128 {
            now as u64
        } else {
            u64::MAX - 1
        };
        let least: u64 = self.last_key.saturating_add(1);
        let key: u64 = if stamp >= least {
            stamp
        } else {
            least
        };
        self.last_key = key;
        let frame = PendingFrame { received: now, entered: None, output: None, group: video_group };
        self.pending.insert(key, frame);
        let ghost all = self.pending@;
        assert(all.dom() == old(self).frames().dom().insert(key));
        if self.pending.len() > MAX_PENDING {
            let mut oldest: u64 = key;
            for k in it: self.pending.keys()
                invariant
                    self.pending@ == all,
                    it.seq().unref().to_set() == all.dom(),
                    all.contains_key(oldest),
                    all.contains_key(key),
                    forall|i: int| 0 <= i < it.index() ==> oldest <= *#[trigger] it.seq()[i],
            {
                if *k < oldest {
                    oldest = *k;
                    assert(it.seq().unref()[it.index() as int] == *k);
                    assert(it.seq().unref().to_set().contains(*k));
                }
            }
            assert forall|k: u64| #[trigger] all.contains_key(k) implies oldest <= k by {
            }
            proof {
                // The new frame is not the oldest: it follows every one before it.
                let other = old(self).frames().dom().choose();
                assert(old(self).frames().contains_key(other));
                assert(all.contains_key(other) && other < key);
            }
            self.pending.remove(&oldest);
        }
        key
    }

    /// As [`StreamStats::received_at`], now.
    pub fn received(&mut self, bytes: usize, video_group: u64) -> (key: u64)
        requires
            old(self).wf(),
        ensures
            final(self).wf(),
            exists|now: u128|
                key == next_key(now, old(self).key()) && trimmed(
                    old(self).frames().insert(
                        key,
                        #[trigger] received_frame(now, video_group),
                    ),
                    final(self).frames(),
                ),
            final(self).key() == key,
            key > old(self).key() || old(self).key() == u64::MAX,
            final(self).frames().contains_key(key),
            final(self).received_bytes == old(self).received_bytes.wrapping_add(bytes as u64),
            final(self).received_frames == old(self).received_frames.wrapping_add(1),
            final(self).decoded_frames == old(self).decoded_frames,
            final(self).unmatched_frames == old(self).unmatched_frames,
            final(self).decoder_queue_bytes == old(self).decoder_queue_bytes,
            final(self).decoder_recoveries == old(self).decoder_recoveries,
            final(self).last_timings() == old(self).last_timings(),
            final(self).same_counters(old(self)),
    {
        let now: u128 = clock::nanos_since(&self.origin);
        let key = self.received_at(now, bytes, video_group);
        assert(received_frame(now, video_group).received == now);
        key
    }

    /// The frame with this key left the decoder's input queue at `now`. The first
    /// report counts, and only before the frame left the decoder.
    pub fn decoder_entered_at(&mut self, now: u128, key: u64)
        requires
            old(self).wf(),
        ensures
            final(self).wf(),
            final(self).frames() == entered_frames(old(self).frames(), key, now),
            final(self).only_frames_changed(old(self)),
    {
        let found: Option<PendingFrame> = match self.pending.get(&key) {
            Some(frame) => Some(*frame),
            None => None,
        };
        if let Some(frame) = found {
            if frame.entered.is_none() && frame.output.is_none() {
                let ghost before = self.pending@;
                self.pending.insert(key, PendingFrame { entered: Some(now), ..frame });
                assert(self.pending@.dom() =~= before.dom());
            }
        }
    }

    /// As [`StreamStats::decoder_entered_at`], now.
    pub fn decoder_entered(&mut self, key: u64)
        requires
            old(self).wf(),
        ensures
            final(self).wf(),
            exists|now: u128|
                final(self).frames() == #[trigger] entered_frames(old(self).frames(), key, now),
            final(self).only_frames_changed(old(self)),
    {
        let now: u128 = clock::nanos_since(&self.origin);
        self.decoder_entered_at(now, key);
    }

    /// The frame with this key left the decoder at `now`, before conversion and
    /// copy. The first report counts.
    pub fn decoder_output_at(&mut self, now: u128, key: u64)
        requires
            old(self).wf(),
        ensures
            final(self).wf(),
            final(self).frames() == output_frames(old(self).frames(), key, now),
            final(self).only_frames_changed(old(self)),
    {
        let found: Option<PendingFrame> = match self.pending.get(&key) {
            Some(frame) => Some(*frame),
            None => None,
        };
        if let Some(frame) = found {
            if frame.output.is_none() {
                let ghost before = self.pending@;
                self.pending.insert(key, PendingFrame { output: Some(now), ..frame });
                assert(self.pending@.dom() =~= before.dom());
            }
        }
    }

    /// As [`StreamStats::decoder_output_at`], now.
    pub fn decoder_output(&mut self, key: u64)
        requires
            old(self).wf(),
        ensures
            final(self).wf(),
            exists|now: u128|
                final(self).frames() == #[trigger] output_frames(old(self).frames(), key, now),
            final(self).only_frames_changed(old(self)),
    {
        let now: u128 = clock::nanos_since(&self.origin);
        self.decoder_output_at(now, key);
    }

    /// How long the frame with this key has waited at `now`.
    pub fn frame_age_at(&self, now: u128, key: u64) -> (r: Option<u128>)
        ensures
            r == age_of(self.frames(), key, now),
    {
        match self.pending.get(&key) {
            Some(frame) => Some(span_nanos(frame, now)),
            None => None,
        }
    }

    /// As [`StreamStats::frame_age_at`], now.
    pub fn frame_age(&self, key: u64) -> (r: Option<u128>)
        ensures
            exists|now: u128| r == #[trigger] age_of(self.frames(), key, now),
    {
        let now: u128 = clock::nanos_since(&self.origin);
        let r = self.frame_age_at(now, key);
        assert(r == age_of(self.frames(), key, now));
        r
    }

    /// The age at `now` of the oldest frame without a decoded counterpart.
    /// Dropped frames count until they are evicted or the ledger is reset.
    pub fn oldest_pending_age_at(&self, now: u128) -> (r: Option<u128>)
        ensures
            oldest_pending(self.frames(), now, r),
    {
        let ghost wanted = |f: PendingFrame| true;
        let ghost mut done = Set::<u64>::empty();
        let mut r: Option<u128> = None;
        for k in it: self.pending.keys()
            invariant
                wanted == (|f: PendingFrame| true),
                it.seq().unref().to_set() == self.frames().dom(),
                done.subset_of(self.frames().dom()),
                forall|i: int| 0 <= i < it.index() ==> done.contains(*#[trigger] it.seq()[i]),
                oldest_of(self.frames(), done, wanted, now, r),
        {
            assert(it.seq().unref()[it.index() as int] == *k);
            assert(it.seq().unref().to_set().contains(*k));
            if let Some(frame) = self.pending.get(k) {
                let a: u128 = span_nanos(frame, now);
                let ghost before = r;
                r = greater(r, a);
                proof {
                    oldest_step(self.frames(), done, wanted, now, before, *k, r);
                    done = done.insert(*k);
                }
            }
        }
        proof {
            assert(done =~= self.frames().dom());
        }
        r
    }

    /// As [`StreamStats::oldest_pending_age_at`], now.
    pub fn oldest_pending_age(&self) -> (r: Option<u128>)
        ensures
            exists|now: u128| #[trigger] oldest_pending(self.frames(), now, r),
    {
        let now: u128 = clock::nanos_since(&self.origin);
        self.oldest_pending_age_at(now)
    }

    /// The age at `now` of the oldest frame in the decoder's input queue. Dropped
    /// buffers can leave entries here, so correlate it with the queue itself.
    pub fn oldest_queued_age_at(&self, now: u128) -> (r: Option<u128>)
        ensures
            oldest_queued(self.frames(), now, r),
    {
        let ghost wanted = |f: PendingFrame| queued(f);
        let ghost mut done = Set::<u64>::empty();
        let mut r: Option<u128> = None;
        for k in it: self.pending.keys()
            invariant
                wanted == (|f: PendingFrame| queued(f)),
                it.seq().unref().to_set() == self.frames().dom(),
                done.subset_of(self.frames().dom()),
                forall|i: int| 0 <= i < it.index() ==> done.contains(*#[trigger] it.seq()[i]),
                oldest_of(self.frames(), done, wanted, now, r),
        {
            assert(it.seq().unref()[it.index() as int] == *k);
            assert(it.seq().unref().to_set().contains(*k));
            if let Some(frame) = self.pending.get(k) {
                let ghost before = r;
                if frame.entered.is_none() && frame.output.is_none() {
                    let a: u128 = span_nanos(frame, now);
                    r = greater(r, a);
                }
                proof {
                    oldest_step(self.frames(), done, wanted, now, before, *k, r);
                    done = done.insert(*k);
                }
            }
        }
        proof {
            assert(done =~= self.frames().dom());
        }
        r
    }

    /// As [`StreamStats::oldest_queued_age_at`], now.
    pub fn oldest_queued_age(&self) -> (r: Option<u128>)
        ensures
            exists|now: u128| #[trigger] oldest_queued(self.frames(), now, r),
    {
        let now: u128 = clock::nanos_since(&self.origin);
        self.oldest_queued_age_at(now)
    }

    /// The ledger once the decoder was flushed.
    pub open spec fn emptied(self, after: StreamStats) -> bool {
        &&& after.frames() == Map::<u64, PendingFrame>::empty()
        &&& after.key() == self.key()
        &&& after.last_timings() == no_timings()
        &&& after.decoder_queue_bytes == 0
        &&& after.decoder_recoveries == self.decoder_recoveries.wrapping_add(1)
        &&& after.received_bytes == self.received_bytes
        &&& after.received_frames == self.received_frames
        &&& after.decoded_frames == self.decoded_frames
        &&& after.unmatched_frames == self.unmatched_frames
        &&& after.same_counters(&self)
    }

    /// A recovery has flushed the old buffers: nothing in flight will come out.
    pub fn reset_pending(&mut self)
        requires
            old(self).wf(),
        ensures
            final(self).wf(),
            old(self).emptied(*final(self)),
    {
        self.pending.clear();
        self.timings = Timings { total_us: 0, queue_us: 0, decoder_us: 0, conversion_us: 0 };
        self.decoder_queue_bytes = 0;
        self.decoder_recoveries = self.decoder_recoveries.wrapping_add(1);
    }

    /// A decoded frame came out at `now` with time stamp `pts`. Its video group is
    /// returned where the stamp is the key of a pending frame, which leaves the
    /// ledger.
    pub fn decoded_at(&mut self, now: u128, pts: Option<u64>) -> (r: Option<u64>)
        requires
            old(self).wf(),
        ensures
            final(self).wf(),
            final(self).key() == old(self).key(),
            final(self).decoded_after(old(self), now, pts, r),
    {
        self.decoded_frames = self.decoded_frames.wrapping_add(1);
        let matched: Option<PendingFrame> = match pts {
            Some(key) => self.pending.remove(&key),
            None => None,
        };
        match matched {
            Some(frame) => {
                self.timings = Timings {
                    total_us: span(frame.received, now),
                    queue_us: match frame.entered {
                        Some(entered) => span(frame.received, entered),
                        None => 0,
                    },
                    decoder_us: match (frame.entered, frame.output) {
                        (Some(entered), Some(output)) => span(entered, output),
                        _ => 0,
                    },
                    conversion_us: match frame.output {
                        Some(output) => span(output, now),
                        None => 0,
                    },
                };
                Some(frame.group)
            },
            None => {
                assert(self.pending@ =~= old(self).pending@);
                self.unmatched_frames = self.unmatched_frames.wrapping_add(1);
                self.timings = Timings { total_us: 0, queue_us: 0, decoder_us: 0, conversion_us: 0 };
                None
            },
        }
    }

    /// As [`StreamStats::decoded_at`], now.
    pub fn decoded(&mut self, pts: Option<u64>) -> (r: Option<u64>)
        requires
            old(self).wf(),
        ensures
            final(self).wf(),
            final(self).key() == old(self).key(),
            exists|now: u128| #[trigger] final(self).decoded_after(old(self), now, pts, r),
    {
        let now: u128 = clock::nanos_since(&self.origin);
        self.decoded_at(now, pts)
    }

    pub fn snapshot(&self) -> (r: Snapshot)
        ensures
            r == self.snapshot_value(),
    {
        Snapshot {
            received_bytes: self.received_bytes,
            received_frames: self.received_frames,
            decoded_frames: self.decoded_frames,
            unmatched_frames: self.unmatched_frames,
            skipped_groups: self.skipped_groups,
            overwritten_frames: self.overwritten_frames,
            decoder_queue_bytes: self.decoder_queue_bytes,
            decode_us: self.timings.total_us,
            queue_us: self.timings.queue_us,
            decoder_us: self.timings.decoder_us,
            conversion_us: self.timings.conversion_us,
            decoder_recoveries: self.decoder_recoveries,
            stale_frames: self.stale_frames,
        }
    }
}

impl Default for StreamStats {
    fn default() -> (r: Self)
        ensures
            r.wf(),
            r.decoder@ == "Not selected"@,
            r.frames() == Map::<u64, PendingFrame>::empty(),
            r.key() == 0,
            r.last_timings() == no_timings(),
            r.snapshot_value() == (Snapshot {
                received_bytes: 0,
                received_frames: 0,
                decoded_frames: 0,
                unmatched_frames: 0,
                skipped_groups: 0,
                overwritten_frames: 0,
                decoder_queue_bytes: 0,
                decode_us: 0,
                queue_us: 0,
                decoder_us: 0,
                conversion_us: 0,
                decoder_recoveries: 0,
                stale_frames: 0,
            }),
            r.ready_frames == 0,
    {
        StreamStats {
            decoder: "Not selected".to_string(),
            origin: clock::now(),
            pending: BTreeMap::new(),
            last_key: 0,
            timings: Timings { total_us: 0, queue_us: 0, decoder_us: 0, conversion_us: 0 },
            received_bytes: 0,
            received_frames: 0,
            decoded_frames: 0,
            ready_frames: 0,
            unmatched_frames: 0,
            skipped_groups: 0,
            overwritten_frames: 0,
            decoder_queue_bytes: 0,
            decoder_recoveries: 0,
            stale_frames: 0,
        }
    }
}

/// Reports are idempotent: a second report of the same stage changes nothing.
pub proof fn reports_are_idempotent(
    frames: Map<u64, PendingFrame>,
    key: u64,
    first: u128,
    second: u128,
)
    ensures
        entered_frames(entered_frames(frames, key, first), key, second) == entered_frames(
            frames,
            key,
            first,
        ),
        output_frames(output_frames(frames, key, first), key, second) == output_frames(
            frames,
            key,
            first,
        ),
{
}

/// The stages of a frame that was seen at every one of them, on a clock that does
/// not run backwards and in whole microseconds of at least one, add up to its
/// total.
pub proof fn stages_add_up(frame: PendingFrame, now: u128)
    requires
        frame.entered is Some && frame.output is Some,
        frame.received + 1000 <= frame.entered->0,
        frame.entered->0 + 1000 <= frame.output->0,
        frame.output->0 + 1000 <= now,
        now - frame.received <= u64::MAX,
        (frame.entered->0 - frame.received) % 1000 == 0,
        (frame.output->0 - frame.entered->0) % 1000 == 0,
        (now - frame.output->0) % 1000 == 0,
    ensures
        frame_timings(frame, now).total_us == frame_timings(frame, now).queue_us + frame_timings(
            frame,
            now,
        ).decoder_us + frame_timings(frame, now).conversion_us,
{
}

} // verus!
