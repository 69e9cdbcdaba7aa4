//! What is measured of a stream.
use crate::stats::{
    age, age_of, entered_frames, next_key, oldest_pending, oldest_queued, output_frames,
    received_frame, span_us, trimmed, PendingFrame, StreamStats, Timings,
};
use vstd::prelude::*;

verus! {

/// `us` is this span in whole microseconds, and one where it is shorter.
pub open spec fn measures(us: u64, from: u128, to: u128) -> bool {
    &&& us >= 1
    &&& to < from + 2000 ==> us == 1
    &&& from + 1000 <= to && to - from < u64::MAX * 1000 ==> us * 1000 <= to - from < us * 1000
        + 1000
    &&& to - from >= u64::MAX * 1000 ==> us == u64::MAX
}

/// A span is measured in whole microseconds, and never as none.
pub proof fn spans_are_microseconds(from: u128, to: u128)
    ensures
        measures(span_us(from, to), from, to),
{
}

/// A decoded frame is found by its time stamp and leaves the ledger, and no other
/// does. Its group is given out, and its stages are measured: from its receipt to the
/// decoder, through the decoder, behind it, and in all.
pub proof fn a_decoded_frame_is_measured(
    before: StreamStats,
    after: StreamStats,
    now: u128,
    key: u64,
    other: u64,
    r: Option<u64>,
)
    requires
        after.decoded_after(&before, now, Some(key), r),
        before.pending@.contains_key(key),
    ensures
        r == Some(before.pending@[key].group),
        !after.pending@.contains_key(key),
        other != key ==> (after.pending@.contains_key(other) <==> before.pending@.contains_key(
            other,
        )),
        other != key && before.pending@.contains_key(other) ==> after.pending@[other]
            == before.pending@[other],
        measures(after.timings.total_us, before.pending@[key].received, now),
        before.pending@[key].entered matches Some(entered) ==> measures(
            after.timings.queue_us,
            before.pending@[key].received,
            entered,
        ),
        before.pending@[key].entered is None ==> after.timings.queue_us == 0
            && after.timings.decoder_us == 0,
        before.pending@[key].output matches Some(output) ==> measures(
            after.timings.conversion_us,
            output,
            now,
        ),
        before.pending@[key].output is None ==> after.timings.conversion_us == 0
            && after.timings.decoder_us == 0,
        before.pending@[key].entered matches Some(entered) ==> before.pending@[key].output matches
            Some(output) ==> measures(after.timings.decoder_us, entered, output),
        after.unmatched_frames == before.unmatched_frames,
        before.decoded_frames < u64::MAX ==> after.decoded_frames == before.decoded_frames + 1,
        after.received_frames == before.received_frames,
        after.received_bytes == before.received_bytes,
{
    let frame = before.pending@[key];
    spans_are_microseconds(frame.received, now);
    if let Some(entered) = frame.entered {
        spans_are_microseconds(frame.received, entered);
        if let Some(output) = frame.output {
            spans_are_microseconds(entered, output);
        }
    }
    if let Some(output) = frame.output {
        spans_are_microseconds(output, now);
    }
}

/// A frame that nobody waits for counts as unmatched, and nothing is measured.
pub proof fn other_frames_are_unmatched(
    before: StreamStats,
    after: StreamStats,
    now: u128,
    pts: Option<u64>,
    r: Option<u64>,
)
    requires
        after.decoded_after(&before, now, pts, r),
        pts matches Some(key) ==> !before.pending@.contains_key(key),
    ensures
        r is None,
        after.pending@ == before.pending@,
        before.unmatched_frames < u64::MAX ==> after.unmatched_frames == before.unmatched_frames
            + 1,
        before.decoded_frames < u64::MAX ==> after.decoded_frames == before.decoded_frames + 1,
        after.timings == (Timings { total_us: 0, queue_us: 0, decoder_us: 0, conversion_us: 0 }),
{
}

/// Keys grow, and follow the clock where it does.
pub proof fn keys_grow(now: u128, last: u64)
    ensures
        last < u64::MAX ==> next_key(now, last) > last,
        last < now < u64::MAX ==> next_key(now, last) == now,
        now <= last < u64::MAX ==> next_key(now, last) == last + 1,
        last == u64::MAX ==> next_key(now, last) == u64::MAX,
{
}

/// A frame waits from its receipt on. The ledger holds 256 frames; the oldest leaves
/// for one more, and no other does.
pub proof fn frames_wait_in_the_ledger(
    before: Map<u64, PendingFrame>,
    key: u64,
    now: u128,
    group: u64,
    after: Map<u64, PendingFrame>,
    other: u64,
)
    requires
        before.dom().finite(),
        trimmed(before.insert(key, received_frame(now, group)), after),
        !before.contains_key(key),
        forall|k: u64| #[trigger] before.contains_key(k) ==> k < key,
    ensures
        received_frame(now, group) == (PendingFrame {
            received: now,
            entered: None,
            output: None,
            group,
        }),
        before.len() < 256 ==> after == before.insert(key, received_frame(now, group)),
        before.len() >= 256 ==> after.contains_key(key) && after.len() == before.len(),
        after.contains_key(other) && other != key ==> before.contains_key(other) && after[other]
            == before[other],
        before.contains_key(other) && !after.contains_key(other) ==> before.len() >= 256 && forall|
            k: u64,
        | #[trigger]
            before.contains_key(k) ==> other <= k,
{
    let all = before.insert(key, received_frame(now, group));
    assert(all.dom() =~= before.dom().insert(key));
    assert(all.len() == before.len() + 1);
    if before.len() >= 256 {
        let least = choose|least: u64|
            all.contains_key(least) && (forall|k: u64| #[trigger]
                all.contains_key(k) ==> least <= k) && after == #[trigger] all.remove(least);
        let some = before.dom().choose();
        assert(before.dom().contains(some)) by {
            if forall|k: u64| !before.dom().contains(k) {
                assert(before.dom() =~= Set::<u64>::empty());
            }
        }
        assert(before.contains_key(some));
        assert(all.contains_key(some));
        assert(least != key);
        assert(after.dom() =~= all.dom().remove(least));
        assert forall|k: u64| #[trigger] before.contains_key(k) implies least <= k by {
            assert(all.contains_key(k));
        }
    }
}

/// The first report of a stage counts: the time is remembered, and nothing else of the
/// frame or of another changes.
pub proof fn stages_are_remembered(
    frames: Map<u64, PendingFrame>,
    key: u64,
    now: u128,
    other: u64,
)
    requires
        frames.contains_key(key),
    ensures
        frames[key].entered is None && frames[key].output is None ==> entered_frames(
            frames,
            key,
            now,
        )[key] == (PendingFrame {
            received: frames[key].received,
            entered: Some(now),
            output: None,
            group: frames[key].group,
        }),
        frames[key].entered is Some || frames[key].output is Some ==> entered_frames(
            frames,
            key,
            now,
        )[key] == frames[key],
        frames[key].output is None ==> output_frames(frames, key, now)[key] == (PendingFrame {
            received: frames[key].received,
            entered: frames[key].entered,
            output: Some(now),
            group: frames[key].group,
        }),
        frames[key].output is Some ==> output_frames(frames, key, now)[key] == frames[key],
        other != key && frames.contains_key(other) ==> {
            &&& entered_frames(frames, key, now).contains_key(other)
            &&& entered_frames(frames, key, now)[other] == frames[other]
            &&& output_frames(frames, key, now).contains_key(other)
            &&& output_frames(frames, key, now)[other] == frames[other]
        },
        !frames.contains_key(other) ==> !entered_frames(frames, key, now).contains_key(other)
            && !output_frames(frames, key, now).contains_key(other),
{
}

/// A frame ages with the clock.
pub proof fn frames_age(frames: Map<u64, PendingFrame>, key: u64, now: u128)
    ensures
        frames.contains_key(key) && frames[key].received <= now ==> (age_of(frames, key, now)
            matches Some(a) && frames[key].received + a == now),
        frames.contains_key(key) && frames[key].received > now ==> age_of(frames, key, now) == Some(
            0u128,
        ),
        !frames.contains_key(key) ==> age_of(frames, key, now) is None,
{
}

/// The oldest frame is as old as some frame, and no frame is older; the oldest in the
/// queue is one that no stage was reported of.
pub proof fn nothing_is_older(
    frames: Map<u64, PendingFrame>,
    now: u128,
    pending: Option<u128>,
    waiting: Option<u128>,
    key: u64,
)
    requires
        oldest_pending(frames, now, pending),
        oldest_queued(frames, now, waiting),
    ensures
        frames.contains_key(key) && frames[key].received <= now ==> (pending matches Some(a) && now
            - frames[key].received <= a),
        frames.contains_key(key) && frames[key].received <= now && frames[key].entered is None
            && frames[key].output is None ==> (waiting matches Some(a) && now
            - frames[key].received <= a),
        pending matches Some(a) ==> a > 0 ==> exists|k: u64| #[trigger]
            frames.contains_key(k) && frames[k].received + a == now,
        waiting matches Some(a) ==> a > 0 ==> exists|k: u64| #[trigger]
            frames.contains_key(k) && frames[k].received + a == now && frames[k].entered is None
                && frames[k].output is None,
        waiting matches Some(a) ==> (pending matches Some(b) && a <= b),
        (forall|k: u64| !(#[trigger] frames.contains_key(k))) ==> pending is None && waiting is None,
{
    if let Some(a) = pending {
        let k = choose|k: u64| #[trigger] frames.contains_key(k) && age(frames[k], now) == a;
        assert(frames.contains_key(k));
    }
    if let Some(a) = waiting {
        let k = choose|k: u64| #[trigger]
            frames.contains_key(k) && frames[k].entered is None && frames[k].output is None && age(
                frames[k],
                now,
            ) == a;
        assert(frames.contains_key(k));
    }
}

/// A snapshot holds each counter, and each stage of the frame that was decoded last.
pub proof fn a_snapshot_holds_the_counters(stats: StreamStats)
    ensures
        ({
            let s = stats.snapshot_value();
            &&& s.received_bytes == stats.received_bytes
            &&& s.received_frames == stats.received_frames
            &&& s.decoded_frames == stats.decoded_frames
            &&& s.unmatched_frames == stats.unmatched_frames
            &&& s.skipped_groups == stats.skipped_groups
            &&& s.overwritten_frames == stats.overwritten_frames
            &&& s.decoder_queue_bytes == stats.decoder_queue_bytes
            &&& s.decode_us == stats.timings.total_us
            &&& s.queue_us == stats.timings.queue_us
            &&& s.decoder_us == stats.timings.decoder_us
            &&& s.conversion_us == stats.timings.conversion_us
            &&& s.decoder_recoveries == stats.decoder_recoveries
            &&& s.stale_frames == stats.stale_frames
        }),
{
}

/// A frame that is received is counted with its bytes, and waits under a new key; nothing
/// else is counted.
pub proof fn a_frame_is_taken_in(
    before: StreamStats,
    now: u128,
    bytes: usize,
    group: u64,
    after: StreamStats,
    key: u64,
)
    requires
        before.took_in(now, bytes, group, after, key),
        bytes <= u64::MAX,
    ensures
        before.received_frames < u64::MAX ==> after.received_frames == before.received_frames + 1,
        before.received_bytes + bytes <= u64::MAX ==> after.received_bytes == before.received_bytes
            + bytes,
        before.last_key < u64::MAX ==> key > before.last_key,
        after.last_key == key,
        after.pending@.contains_key(key),
        after.decoded_frames == before.decoded_frames && after.unmatched_frames
            == before.unmatched_frames && after.decoder_recoveries == before.decoder_recoveries
            && after.timings == before.timings && after.skipped_groups == before.skipped_groups
            && after.stale_frames == before.stale_frames,
{
}

/// A decoder that was flushed gives nothing back of what went in, and the recovery is
/// counted; keys are not given out again.
pub proof fn a_flushed_decoder_starts_anew(before: StreamStats, after: StreamStats, key: u64)
    requires
        before.emptied(after),
    ensures
        !after.pending@.contains_key(key),
        after.last_key == before.last_key,
        before.decoder_recoveries < u64::MAX ==> after.decoder_recoveries
            == before.decoder_recoveries + 1,
        after.decoder_queue_bytes == 0,
        after.timings == (Timings { total_us: 0, queue_us: 0, decoder_us: 0, conversion_us: 0 }),
        after.received_frames == before.received_frames && after.received_bytes
            == before.received_bytes && after.decoded_frames == before.decoded_frames
            && after.unmatched_frames == before.unmatched_frames,
{
}

} // verus!
