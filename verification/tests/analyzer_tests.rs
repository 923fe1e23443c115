use blaulicht::analyzer::{Analyzer, Bucket, TickOutput};
use blaulicht::signals::{AudioThreadControlSignal, Signal, SystemMessage};

fn frame(buckets: &[(u64, u64)]) -> Vec<Bucket> {
    buckets.iter().map(|&(freq, volume)| Bucket { freq, volume }).collect()
}

fn beat_volumes(out: &TickOutput) -> Vec<u8> {
    out.signals
        .iter()
        .filter_map(|s| match s {
            Signal::BeatVolume(v) => Some(*v),
            _ => None,
        })
        .collect()
}

#[test]
fn map_degenerate_range_yields_zero() {
    // Short-term window [5, 5, 5] with curr = 5: min == max maps to 0.
    assert_eq!(blaulicht::analyzer::map(5, 5, 5, 0, 255), 0);
}

#[test]
fn map_range_ends() {
    assert_eq!(blaulicht::analyzer::map(0, 0, 10, 0, 255), 0);
    assert_eq!(blaulicht::analyzer::map(10, 0, 10, 0, 255), 255);
    assert_eq!(blaulicht::analyzer::map(5, 0, 10, 0, 255), 127);
}

#[test]
fn map_is_monotone_in_current_value() {
    let mut prev = 0;
    for x in 0..=10 {
        let y = blaulicht::analyzer::map(x, 0, 10, 0, 255);
        assert!(y >= prev);
        prev = y;
    }
}

#[test]
fn map_with_output_offset() {
    assert_eq!(blaulicht::analyzer::map(5, 0, 10, 100, 200), 150);
}

#[test]
fn map_index_matches_map() {
    assert_eq!(blaulicht::analyzer::map_index(5, 5, 5), 0);
    assert_eq!(blaulicht::analyzer::map_index(0, 0, 10), 0);
    assert_eq!(blaulicht::analyzer::map_index(10, 0, 10), 255);
    assert_eq!(blaulicht::analyzer::map_index(5, 0, 10), 127);
}

#[test]
fn first_frame_emits_volume_and_bass() {
    let mut a = Analyzer::new(0);
    let out = a.tick(&frame(&[(100, 5)]), 20_000);
    assert_eq!(out.signals, vec![Signal::Volume(50), Signal::Bass(50)]);
    assert!(!out.backoff);
    assert!(out.messages.is_empty());
}

#[test]
fn volume_is_mean_of_window_scaled_by_ten() {
    let mut a = Analyzer::new(0);
    let out1 = a.tick(&frame(&[(100, 5)]), 20_000);
    assert_eq!(out1.signals[0], Signal::Volume(50));
    // Window now holds [5, 7]: mean 6, scaled 60.
    let out2 = a.tick(&frame(&[(100, 7)]), 40_000);
    assert_eq!(out2.signals[0], Signal::Volume(60));
}

#[test]
fn volume_clamps_at_255() {
    let mut a = Analyzer::new(0);
    let out = a.tick(&frame(&[(100, 90)]), 20_000);
    assert_eq!(out.signals[0], Signal::Volume(255));
}

#[test]
fn bass_averages_buckets_at_or_below_cutoff() {
    let mut a = Analyzer::new(0);
    // Only the 100 Hz and 150 Hz buckets count: mean (3 + 5) / 2 = 4 -> 40.
    let out = a.tick(&frame(&[(200, 9), (100, 3), (150, 5)]), 20_000);
    assert_eq!(out.signals[1], Signal::Bass(40));
    // The overall volume still sees the loudest bucket: 9 -> 90.
    assert_eq!(out.signals[0], Signal::Volume(90));
}

#[test]
fn bass_of_empty_filter_is_zero() {
    let mut a = Analyzer::new(0);
    let out = a.tick(&frame(&[(1000, 9)]), 20_000);
    assert_eq!(out.signals[1], Signal::Bass(0));
}

#[test]
fn beat_maps_peak_against_short_window_range() {
    let mut a = Analyzer::new(0);
    // First frame: window [10], min == max, mapped 0 == initial index.
    let out1 = a.tick(&frame(&[(100, 10)]), 20_000);
    assert_eq!(beat_volumes(&out1), Vec::<u8>::new());
    // Second frame: window [10, 20], curr 20 maps to 255.
    let out2 = a.tick(&frame(&[(100, 20)]), 40_000);
    assert_eq!(beat_volumes(&out2), vec![255]);
}

#[test]
fn repeated_mapped_index_is_suppressed() {
    let mut a = Analyzer::new(0);
    a.tick(&frame(&[(100, 10)]), 20_000);
    let out2 = a.tick(&frame(&[(100, 20)]), 40_000);
    assert_eq!(beat_volumes(&out2), vec![255]);
    // Same mapped index again, well past the rate limit: still suppressed.
    let out3 = a.tick(&frame(&[(100, 20)]), 60_000);
    assert_eq!(beat_volumes(&out3), Vec::<u8>::new());
    // A different index emits again.
    let out4 = a.tick(&frame(&[(100, 10)]), 80_000);
    assert_eq!(beat_volumes(&out4), vec![0]);
}

#[test]
fn emissions_respect_the_rate_limit() {
    let mut a = Analyzer::new(0);
    let out1 = a.tick(&frame(&[(100, 5)]), 20_000);
    assert_eq!(out1.signals.len(), 2);
    // 5 ms later: inside the 10 ms limit, nothing may be emitted.
    let out2 = a.tick(&frame(&[(100, 5)]), 25_000);
    assert!(out2.signals.is_empty());
    // 15 ms after the first emission: allowed again.
    let out3 = a.tick(&frame(&[(100, 5)]), 35_000);
    assert_eq!(out3.signals.len(), 2);
}

#[test]
fn silent_long_window_backs_off_and_suppresses_beats() {
    let mut a = Analyzer::new(0);
    let out1 = a.tick(&frame(&[(100, 0)]), 20_000);
    assert!(out1.backoff);
    assert_eq!(beat_volumes(&out1), Vec::<u8>::new());
    // Energy returns: the very next iteration runs normally again.
    let out2 = a.tick(&frame(&[(100, 5)]), 40_000);
    assert!(!out2.backoff);
    assert!(out2.exited_idle);
    assert_eq!(beat_volumes(&out2), vec![255]);
}

#[test]
fn long_window_eviction_reenters_idle() {
    let mut a = Analyzer::new(0);
    let mut now: u64 = 20_000;
    let active = a.tick(&frame(&[(100, 5)]), now);
    assert!(!active.backoff);
    // Push silence until the one energetic frame is evicted from the
    // long-term window (capacity 10 000).
    let silence = frame(&[]);
    let mut entered = false;
    for _ in 0..10_000 {
        now += 20_000;
        let out = a.tick(&silence, now);
        if out.entered_idle {
            entered = true;
            assert!(out.backoff);
            break;
        }
        assert!(!out.backoff);
    }
    assert!(entered);
}

#[test]
fn loop_speed_message_is_coarsely_rate_limited() {
    let mut a = Analyzer::new(0);
    let out1 = a.tick(&frame(&[(100, 5)]), 2_000_000);
    assert_eq!(out1.messages, vec![SystemMessage::LoopSpeed(2_000_000)]);
    let out2 = a.tick(&frame(&[(100, 5)]), 2_020_000);
    assert!(out2.messages.is_empty());
    let out3 = a.tick(&frame(&[(100, 5)]), 3_100_000);
    assert_eq!(out3.messages, vec![SystemMessage::LoopSpeed(1_080_000)]);
}

#[test]
fn abort_control_word_exits_without_emitting() {
    let mut a = Analyzer::new(0);
    let r = a.loop_step(AudioThreadControlSignal::ABORT, &frame(&[(100, 5)]), 20_000);
    assert!(r.is_none());
    // The state is untouched: a later normal step behaves like the first.
    let r2 = a.loop_step(AudioThreadControlSignal::CONTINUE, &frame(&[(100, 5)]), 20_000);
    let out = r2.unwrap();
    assert_eq!(out.signals, vec![Signal::Volume(50), Signal::Bass(50)]);
}

#[test]
fn empty_frame_is_absorbed() {
    let mut a = Analyzer::new(0);
    let out = a.tick(&frame(&[]), 20_000);
    assert_eq!(out.signals, vec![Signal::Volume(0), Signal::Bass(0)]);
    assert!(out.backoff);
}
