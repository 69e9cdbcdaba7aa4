use std::time::{Duration, Instant};
use teleport::stats::StreamStats;

#[test]
fn stages_are_exact_keyed_and_do_not_mix_reordered_frames() {
    let mut stats = StreamStats::default();
    stats.origin = Instant::now() - Duration::from_secs(1);
    let old = stats.received(10, 2);
    let new = stats.received(10, 4);
    let now: u128 = stats.origin.elapsed().as_nanos();
    {
        let frame = stats.pending.get_mut(&new).unwrap();
        frame.received = now - 12_000_000;
        frame.entered = Some(now - 8_000_000);
        frame.output = Some(now - 3_000_000);
    }
    assert_eq!(stats.decoded(Some(new)), Some(4));
    let snapshot = stats.snapshot();
    assert_eq!(snapshot.queue_us, 4000);
    assert_eq!(snapshot.decoder_us, 5000);
    assert!(snapshot.conversion_us >= 3000);
    assert_eq!(
        snapshot.decode_us,
        snapshot.queue_us + snapshot.decoder_us + snapshot.conversion_us
    );
    assert_eq!(stats.decoded(Some(old)), Some(2));
    let snapshot = stats.snapshot();
    assert!(snapshot.decode_us > 0);
    assert_eq!(
        (snapshot.queue_us, snapshot.decoder_us, snapshot.conversion_us),
        (0, 0, 0)
    );
}

#[test]
fn probes_are_idempotent_and_ages_exclude_completed_frames() {
    let mut stats = StreamStats::default();
    let key = stats.received(10, 3);
    assert!(stats.oldest_pending_age().is_some());
    assert!(stats.oldest_queued_age().is_some());
    assert!(stats.frame_age(key).is_some());
    stats.decoder_entered(key + 100);
    assert!(stats.oldest_queued_age().is_some());
    stats.decoder_entered(key);
    let entered = stats.pending[&key].entered;
    stats.decoder_entered(key);
    assert_eq!(stats.pending[&key].entered, entered);
    assert!(stats.oldest_queued_age().is_none());
    stats.decoder_output(key);
    let output = stats.pending[&key].output;
    stats.decoder_output(key);
    assert_eq!(stats.pending[&key].output, output);
    assert_eq!(stats.decoded(Some(key)), Some(3));
    let snapshot = stats.snapshot();
    assert!(snapshot.queue_us > 0 && snapshot.decoder_us > 0 && snapshot.conversion_us > 0);
    assert!(stats.frame_age(key).is_none());
    assert!(stats.oldest_pending_age().is_none());
    assert!(stats.oldest_queued_age().is_none());
    stats.decoded(Some(key));
    let snapshot = stats.snapshot();
    assert_eq!(
        (
            snapshot.decode_us,
            snapshot.queue_us,
            snapshot.decoder_us,
            snapshot.conversion_us
        ),
        (0, 0, 0, 0)
    );
}

#[test]
fn recovery_discards_stale_keys_and_timings_without_reusing_keys() {
    let mut stats = StreamStats::default();
    let key = stats.received(10, 5);
    stats.decoder_entered(key);
    stats.decoder_output(key);
    stats.decoded(Some(key));
    let stale = stats.received(10, 6);
    stats.decoder_queue_bytes = 123;
    stats.reset_pending();
    let snapshot = stats.snapshot();
    assert_eq!(snapshot.decoder_recoveries, 1);
    assert_eq!(snapshot.decoder_queue_bytes, 0);
    assert_eq!(
        (
            snapshot.decode_us,
            snapshot.queue_us,
            snapshot.decoder_us,
            snapshot.conversion_us
        ),
        (0, 0, 0, 0)
    );
    assert!(stats.frame_age(stale).is_none());
    let fresh = stats.received(10, 7);
    assert!(fresh > stale);
    stats.decoder_entered(stale);
    stats.decoder_output(stale);
    assert_eq!(stats.decoded(Some(stale)), None);
    assert_eq!(stats.decoded(Some(fresh)), Some(7));
}

#[test]
fn timestamps_are_bounded_and_match_decoded_frames() {
    let mut stats = StreamStats::default();
    let first = stats.received(42, 7);
    assert_eq!(stats.decoded(Some(first)), Some(7));
    assert!(stats.snapshot().decode_us > 0);
    assert_eq!(stats.snapshot().received_bytes, 42);
    assert_eq!(stats.snapshot().decoded_frames, 1);
    assert_eq!(stats.decoded(None), None);
    assert_eq!(stats.snapshot().decode_us, 0);
    for _ in 0..1000 {
        stats.received(1, 9);
    }
    assert_eq!(stats.pending.len(), 256);
}

#[test]
fn reordered_decodes_keep_their_video_generation() {
    let mut stats = StreamStats::default();
    let old = stats.received(10, 2);
    let new = stats.received(10, 4);
    assert_eq!(stats.decoded(Some(new)), Some(4));
    assert_eq!(stats.decoded(Some(old)), Some(2));
    assert_eq!(stats.decoded(Some(new)), None);
    let evicted = stats.received(10, 4);
    for _ in 0..257 {
        stats.received(10, 5);
    }
    assert_eq!(stats.decoded(Some(evicted)), None);
}

#[test]
fn ages_are_counted_from_the_given_moment() {
    let mut stats = StreamStats::default();
    let first = stats.received_at(1_000, 10, 1);
    let second = stats.received_at(5_000, 10, 1);
    assert_eq!(stats.frame_age_at(9_000, first), Some(8_000));
    assert_eq!(stats.frame_age_at(9_000, second), Some(4_000));
    assert_eq!(stats.oldest_pending_age_at(9_000), Some(8_000));
    stats.decoder_entered_at(6_000, first);
    assert_eq!(stats.oldest_queued_age_at(9_000), Some(4_000));
    stats.decoder_output_at(8_000, first);
    assert_eq!(stats.decoded_at(10_000, Some(first)), Some(1));
    assert_eq!(stats.snapshot().received_frames, 2);
    assert_eq!(stats.snapshot().decoded_frames, 1);
}
