//! The signal analyzer: consumes integer frequency-bucket frames, maintains
//! rolling statistics, and decides which rate-limited `Signal` events and
//! telemetry one loop iteration emits.
//!
//! Time enters as a microsecond counter supplied by the caller, which must be
//! monotone across calls, as a wall clock is.

use vstd::prelude::*;

use crate::signals::{AudioThreadControlSignal, Signal, SystemMessage};
use crate::window::{
    push_model, seq_max, seq_min, seq_sum, Window, WINDOW_SAMPLE_MAX,
};

verus! {

/// Minimum interval between two emissions of one signal kind, in
/// microseconds.
pub const SIGNAL_SPEED_US: u64 = 10_000;

/// Minimum interval between two loop-speed telemetry messages, in
/// microseconds.
pub const SYSTEM_MESSAGE_SPEED_US: u64 = 1_000_000;

/// Base iteration count of the rolling statistics.
pub const ROLLING_AVERAGE_LOOP_ITERATIONS: usize = 100;

/// Capacity of the volume-smoothing window.
pub const ROLLING_AVERAGE_VOLUME_SAMPLE_SIZE: usize = ROLLING_AVERAGE_LOOP_ITERATIONS / 2;

/// Capacity of the short-term loudness-spike window.
pub const SHORT_WINDOW_FRAMES: usize = 100;

/// Capacity of the long-term activity window.
pub const LONG_WINDOW_FRAMES: usize = SHORT_WINDOW_FRAMES * 100;

/// Upper end of the adaptive beat mapping's output range.
pub const MAX_BEAT_VOLUME: u8 = 255;

/// Buckets at or below this frequency, in Hz, count as bass.
pub const BASS_CUTOFF_HZ: u64 = 150;

/// Most buckets a frame may carry.
pub const FRAME_LEN_MAX: usize = 4096;

/// Largest per-bucket volume a frame may carry. With `FRAME_LEN_MAX` it keeps
/// a frame's total energy within `WINDOW_SAMPLE_MAX`.
pub const BUCKET_VOLUME_MAX: u64 = 0x10_0000;

/// One frequency bucket of a frame: an energy reading at a frequency, both as
/// integers (volume in the capture's native scale, frequency in Hz).
#[derive(Clone, Copy, Debug, PartialEq, Eq, Structural)]
pub struct Bucket {
    pub freq: u64,
    pub volume: u64,
}

/// A frame the analyzer accepts: boundedly many buckets, each with a bounded
/// volume.
pub open spec fn frame_ok(frame: Seq<Bucket>) -> bool {
    &&& frame.len() <= FRAME_LEN_MAX
    &&& forall|i: int| 0 <= i < frame.len() ==> frame[i].volume <= BUCKET_VOLUME_MAX
}

/// The largest bucket volume in a frame (the frame's peak); 0 for an empty
/// frame.
pub open spec fn frame_peak(frame: Seq<Bucket>) -> u64
    decreases frame.len(),
{
    if frame.len() == 0 {
        0
    } else if frame.last().volume >= frame_peak(frame.drop_last()) {
        frame.last().volume
    } else {
        frame_peak(frame.drop_last())
    }
}

/// The sum of all bucket volumes in a frame (the frame's total energy).
pub open spec fn frame_energy(frame: Seq<Bucket>) -> int
    decreases frame.len(),
{
    if frame.len() == 0 {
        0
    } else {
        frame_energy(frame.drop_last()) + frame.last().volume
    }
}

/// How many buckets of a frame lie at or below the bass cutoff.
pub open spec fn bass_count(frame: Seq<Bucket>) -> int
    decreases frame.len(),
{
    if frame.len() == 0 {
        0
    } else {
        bass_count(frame.drop_last()) + if frame.last().freq <= BASS_CUTOFF_HZ {
            1int
        } else {
            0int
        }
    }
}

/// The summed volume of a frame's bass buckets.
pub open spec fn bass_sum(frame: Seq<Bucket>) -> int
    decreases frame.len(),
{
    if frame.len() == 0 {
        0
    } else {
        bass_sum(frame.drop_last()) + if frame.last().freq <= BASS_CUTOFF_HZ {
            frame.last().volume as int
        } else {
            0int
        }
    }
}

/// Clamp an integer into a saturating 0-255 intensity.
pub open spec fn clamp_u8(x: int) -> u8 {
    if x < 0 {
        0
    } else if x > 255 {
        255
    } else {
        x as u8
    }
}

/// Linear mapping of `x` from the range `[in_min, in_max]` onto
/// `[out_min, out_max]`, with the divisor floored at 1 (so a degenerate input
/// range maps to the output floor) and the result floored at 0.
pub open spec fn map_spec(x: int, in_min: int, in_max: int, out_min: int, out_max: int) -> int {
    let divisor = if in_max - in_min < 1 {
        1int
    } else {
        in_max - in_min
    };
    let scaled = (x - in_min) * (out_max - out_min) / divisor + out_min;
    if scaled < 0 {
        0
    } else {
        scaled
    }
}

/// The rate limiter: an emission whose kind was last published at `last` may
/// pass at `now` only once more than `interval` has elapsed.
pub open spec fn rate_passed(last: u64, now: u64, interval: u64) -> bool {
    now - last > interval
}

/// The smoothed loudness derived from the volume window: the window's mean,
/// scaled by 10 and clamped to an intensity; 0 while the window is empty.
pub open spec fn volume_level(samples: Seq<u64>) -> u8 {
    if samples.len() == 0 {
        0
    } else {
        clamp_u8(seq_sum(samples) / samples.len() as int * 10)
    }
}

/// The smoothed bass energy of a frame: the mean volume of its bass buckets,
/// scaled by 10 and clamped to an intensity; 0 when no bucket is bass.
pub open spec fn bass_level(frame: Seq<Bucket>) -> u8 {
    if bass_count(frame) == 0 {
        0
    } else {
        clamp_u8(bass_sum(frame) / bass_count(frame) * 10)
    }
}

/// `now` does not lie before any timestamp the analyzer holds: the caller's
/// clock is monotone.
pub open spec fn analyzer_time_ok(m: AnalyzerModel, now: u64) -> bool {
    &&& now >= m.loop_begin_us
    &&& now >= m.last_system_publish_us
    &&& now >= m.last_volume_publish_us
    &&& now >= m.last_bass_publish_us
    &&& now >= m.last_beat_publish_us
}

/// The abstract state of the analyzer between iterations.
#[verifier::ext_equal]
pub ghost struct AnalyzerModel {
    /// Whether the last iteration found the long-term window silent.
    pub inactive: bool,
    /// When the previous iteration started.
    pub loop_begin_us: u64,
    pub last_system_publish_us: u64,
    pub last_volume_publish_us: u64,
    pub last_bass_publish_us: u64,
    pub last_beat_publish_us: u64,
    /// The mapped beat index most recently emitted.
    pub last_index: u8,
    pub volume_samples: Seq<u64>,
    pub short_window: Seq<u64>,
    pub long_window: Seq<u64>,
}

/// Everything one iteration decides: the successor state, the signals and
/// telemetry to emit in order, whether the loop should back off to sleep, and
/// the idle-state edges worth logging.
#[verifier::ext_equal]
pub ghost struct TickModel {
    pub state: AnalyzerModel,
    pub signals: Seq<Signal>,
    pub messages: Seq<SystemMessage>,
    pub backoff: bool,
    pub entered_idle: bool,
    pub exited_idle: bool,
}

/// The volume window after an iteration on `frame`.
pub open spec fn tick_volume_window(pre: AnalyzerModel, frame: Seq<Bucket>) -> Seq<u64> {
    push_model(pre.volume_samples, ROLLING_AVERAGE_VOLUME_SAMPLE_SIZE as int, frame_peak(frame))
}

/// The short-term window after an iteration on `frame`.
pub open spec fn tick_short_window(pre: AnalyzerModel, frame: Seq<Bucket>) -> Seq<u64> {
    push_model(pre.short_window, SHORT_WINDOW_FRAMES as int, frame_peak(frame))
}

/// The long-term window after an iteration on `frame`.
pub open spec fn tick_long_window(pre: AnalyzerModel, frame: Seq<Bucket>) -> Seq<u64> {
    push_model(pre.long_window, LONG_WINDOW_FRAMES as int, frame_energy(frame) as u64)
}

/// Whether an iteration at `now` finds the system silent: the long-term
/// window's sum, current frame included, is zero.
pub open spec fn tick_backoff(pre: AnalyzerModel, frame: Seq<Bucket>) -> bool {
    seq_sum(tick_long_window(pre, frame)) == 0
}

/// The adaptively mapped beat index of an iteration: the frame's peak mapped
/// from the short-term window's observed range onto 0-255.
pub open spec fn tick_mapped_index(pre: AnalyzerModel, frame: Seq<Bucket>) -> u8 {
    let w = tick_short_window(pre, frame);
    clamp_u8(map_spec(frame_peak(frame) as int, seq_min(w) as int, seq_max(w) as int, 0, MAX_BEAT_VOLUME as int))
}

/// Whether an iteration emits `Signal::Volume`.
pub open spec fn tick_emits_volume(pre: AnalyzerModel, now: u64) -> bool {
    rate_passed(pre.last_volume_publish_us, now, SIGNAL_SPEED_US)
}

/// Whether an iteration emits `Signal::Bass`.
pub open spec fn tick_emits_bass(pre: AnalyzerModel, now: u64) -> bool {
    rate_passed(pre.last_bass_publish_us, now, SIGNAL_SPEED_US)
}

/// Whether an iteration emits `Signal::BeatVolume`: the system is active, the
/// mapped index differs from the previously emitted one, and the rate limit
/// has elapsed. All three must hold.
pub open spec fn tick_emits_beat(pre: AnalyzerModel, frame: Seq<Bucket>, now: u64) -> bool {
    &&& !tick_backoff(pre, frame)
    &&& tick_mapped_index(pre, frame) != pre.last_index
    &&& rate_passed(pre.last_beat_publish_us, now, SIGNAL_SPEED_US)
}

/// Whether an iteration emits loop-speed telemetry.
pub open spec fn tick_emits_speed(pre: AnalyzerModel, now: u64) -> bool {
    rate_passed(pre.last_system_publish_us, now, SYSTEM_MESSAGE_SPEED_US)
}

/// What one analyzer iteration at time `now` on `frame` decides.
pub open spec fn tick_spec(pre: AnalyzerModel, frame: Seq<Bucket>, now: u64) -> TickModel {
    let backoff = tick_backoff(pre, frame);
    let vol_emit = tick_emits_volume(pre, now);
    let bass_emit = tick_emits_bass(pre, now);
    let beat_emit = tick_emits_beat(pre, frame, now);
    let speed_emit = tick_emits_speed(pre, now);
    let vol_window = tick_volume_window(pre, frame);
    let state = AnalyzerModel {
        inactive: backoff,
        loop_begin_us: now,
        last_system_publish_us: if speed_emit {
            now
        } else {
            pre.last_system_publish_us
        },
        last_volume_publish_us: if vol_emit {
            now
        } else {
            pre.last_volume_publish_us
        },
        last_bass_publish_us: if bass_emit {
            now
        } else {
            pre.last_bass_publish_us
        },
        last_beat_publish_us: if beat_emit {
            now
        } else {
            pre.last_beat_publish_us
        },
        last_index: if beat_emit {
            tick_mapped_index(pre, frame)
        } else {
            pre.last_index
        },
        volume_samples: vol_window,
        short_window: tick_short_window(pre, frame),
        long_window: tick_long_window(pre, frame),
    };
    let signals = (if vol_emit {
        seq![Signal::Volume(volume_level(vol_window))]
    } else {
        Seq::empty()
    }) + (if bass_emit {
        seq![Signal::Bass(bass_level(frame))]
    } else {
        Seq::empty()
    }) + (if beat_emit {
        seq![Signal::BeatVolume(tick_mapped_index(pre, frame))]
    } else {
        Seq::empty()
    });
    let messages = if speed_emit {
        seq![SystemMessage::LoopSpeed((now - pre.loop_begin_us) as u64)]
    } else {
        Seq::empty()
    };
    TickModel {
        state,
        signals,
        messages,
        backoff,
        entered_idle: backoff && !pre.inactive,
        exited_idle: !backoff && pre.inactive,
    }
}

/// What one iteration hands back for the embedding loop to perform: signals
/// and telemetry to send, in order, and whether to sleep before the next
/// data check.
pub struct TickOutput {
    pub signals: Vec<Signal>,
    pub messages: Vec<SystemMessage>,
    /// The long-term window is silent: sleep before the next iteration and
    /// suppress beat emission until energy returns.
    pub backoff: bool,
    /// This iteration crossed the active-to-inactive edge.
    pub entered_idle: bool,
    /// This iteration crossed the inactive-to-active edge.
    pub exited_idle: bool,
}

/// The analyzer: rolling statistics over frequency frames and the per-kind
/// rate-limiter timestamps.
pub struct Analyzer {
    inactive: bool,
    loop_begin_us: u64,
    last_system_publish_us: u64,
    last_volume_publish_us: u64,
    last_bass_publish_us: u64,
    last_beat_publish_us: u64,
    last_index: u8,
    volume_samples: Window,
    short_window: Window,
    long_window: Window,
}

impl View for Analyzer {
    type V = AnalyzerModel;

    closed spec fn view(&self) -> AnalyzerModel {
        AnalyzerModel {
            inactive: self.inactive,
            loop_begin_us: self.loop_begin_us,
            last_system_publish_us: self.last_system_publish_us,
            last_volume_publish_us: self.last_volume_publish_us,
            last_bass_publish_us: self.last_bass_publish_us,
            last_beat_publish_us: self.last_beat_publish_us,
            last_index: self.last_index,
            volume_samples: self.volume_samples@,
            short_window: self.short_window@,
            long_window: self.long_window@,
        }
    }
}

impl Analyzer {
    /// The windows are well formed and have their fixed capacities.
    pub closed spec fn wf(&self) -> bool {
        &&& self.volume_samples.wf()
        &&& self.volume_samples.cap() == ROLLING_AVERAGE_VOLUME_SAMPLE_SIZE
        &&& self.short_window.wf()
        &&& self.short_window.cap() == SHORT_WINDOW_FRAMES
        &&& self.long_window.wf()
        &&& self.long_window.cap() == LONG_WINDOW_FRAMES
    }

    /// A fresh analyzer, started at time `now_us`, with empty windows and the
    /// loop considered inactive until energy is seen.
    pub fn new(now_us: u64) -> (a: Analyzer)
        ensures
            a.wf(),
            a@ == (AnalyzerModel {
                inactive: true,
                loop_begin_us: now_us,
                last_system_publish_us: now_us,
                last_volume_publish_us: now_us,
                last_bass_publish_us: now_us,
                last_beat_publish_us: now_us,
                last_index: 0,
                volume_samples: Seq::<u64>::empty(),
                short_window: Seq::<u64>::empty(),
                long_window: Seq::<u64>::empty(),
            }),
    {
        Analyzer {
            inactive: true,
            loop_begin_us: now_us,
            last_system_publish_us: now_us,
            last_volume_publish_us: now_us,
            last_bass_publish_us: now_us,
            last_beat_publish_us: now_us,
            last_index: 0,
            volume_samples: Window::new(ROLLING_AVERAGE_VOLUME_SAMPLE_SIZE),
            short_window: Window::new(SHORT_WINDOW_FRAMES),
            long_window: Window::new(LONG_WINDOW_FRAMES),
        }
    }

    /// One analysis iteration: ingest `frame` at time `now_us`, update the
    /// rolling statistics, and return what the loop must emit and whether it
    /// should back off.
    pub fn tick(&mut self, frame: &Vec<Bucket>, now_us: u64) -> (out: TickOutput)
        requires
            old(self).wf(),
            analyzer_time_ok(old(self)@, now_us),
            frame_ok(frame@),
        ensures
            final(self).wf(),
            analyzer_time_ok(final(self)@, now_us),
            final(self)@ == tick_spec(old(self)@, frame@, now_us).state,
            out.signals@ == tick_spec(old(self)@, frame@, now_us).signals,
            out.messages@ == tick_spec(old(self)@, frame@, now_us).messages,
            out.backoff == tick_spec(old(self)@, frame@, now_us).backoff,
            out.entered_idle == tick_spec(old(self)@, frame@, now_us).entered_idle,
            out.exited_idle == tick_spec(old(self)@, frame@, now_us).exited_idle,
    {
        let ghost pre = self@;
        let ghost model = tick_spec(pre, frame@, now_us);

        // Loop-speed telemetry.
        let speed: u64 = now_us - self.loop_begin_us;
        self.loop_begin_us = now_us;
        let mut messages: Vec<SystemMessage> = Vec::new();
        if now_us - self.last_system_publish_us > SYSTEM_MESSAGE_SPEED_US {
            messages.push(SystemMessage::LoopSpeed(speed));
            self.last_system_publish_us = now_us;
        }
        proof {
            assert(messages@ =~= model.messages);
        }

        // Per-frame statistics, in one pass.
        let stats = frame_stats(frame);
        proof {
            lemma_frame_peak_bound(frame@);
            lemma_frame_energy_bound(frame@);
            lemma_bass_sum_le_energy(frame@);
        }

        let mut signals: Vec<Signal> = Vec::new();

        // Overall loudness, smoothed over the volume window.
        self.volume_samples.push(stats.peak);
        proof {
            crate::window::lemma_window_samples_bounded(self.volume_samples);
            crate::window::lemma_seq_sum_bound(self.volume_samples@);
        }
        let vol_value: u8 = level_of(self.volume_samples.sum(), self.volume_samples.len() as u64);
        proof {
            assert(vol_value == volume_level(tick_volume_window(pre, frame@)));
        }
        if now_us - self.last_volume_publish_us > SIGNAL_SPEED_US {
            signals.push(Signal::Volume(vol_value));
            self.last_volume_publish_us = now_us;
        }

        // Bass energy of this frame.
        let bass_value: u8 = level_of(stats.bass_sum, stats.bass_count);
        proof {
            assert(bass_value == bass_level(frame@));
        }
        if now_us - self.last_bass_publish_us > SIGNAL_SPEED_US {
            signals.push(Signal::Bass(bass_value));
            self.last_bass_publish_us = now_us;
        }

        // Loudness spike, adaptively normalized to the short-term window.
        self.long_window.push(stats.energy);
        self.short_window.push(stats.peak);
        let long_sum: u64 = self.long_window.sum();
        let backoff = long_sum == 0;
        let entered_idle = backoff && !self.inactive;
        let exited_idle = !backoff && self.inactive;
        self.inactive = backoff;

        proof {
            crate::window::lemma_window_samples_bounded(self.short_window);
            crate::window::lemma_seq_max_le(self.short_window@, WINDOW_SAMPLE_MAX);
        }
        let mn: u64 = self.short_window.min_val();
        let mx: u64 = self.short_window.max_val();
        let mapped: u8 = map_index(stats.peak, mn, mx);
        proof {
            assert(mapped == tick_mapped_index(pre, frame@));
        }
        if !backoff && mapped != self.last_index && now_us - self.last_beat_publish_us
            > SIGNAL_SPEED_US {
            signals.push(Signal::BeatVolume(mapped));
            self.last_index = mapped;
            self.last_beat_publish_us = now_us;
        }

        proof {
            assert(signals@ =~= model.signals);
            assert(self@ =~= model.state);
        }
        TickOutput { signals, messages, backoff, entered_idle, exited_idle }
    }

    /// One iteration of the running loop, control word included: on `ABORT`
    /// the loop exits at once, changing nothing and emitting nothing further;
    /// on any other control value it performs a normal iteration.
    pub fn loop_step(&mut self, control: u8, frame: &Vec<Bucket>, now_us: u64) -> (r: Option<
        TickOutput,
    >)
        requires
            old(self).wf(),
            analyzer_time_ok(old(self)@, now_us),
            frame_ok(frame@),
        ensures
            final(self).wf(),
            r is None <==> control == AudioThreadControlSignal::ABORT,
            r is None ==> final(self)@ == old(self)@,
            r is Some ==> final(self)@ == tick_spec(old(self)@, frame@, now_us).state,
            r matches Some(out) ==> out.signals@ == tick_spec(old(self)@, frame@, now_us).signals,
            r matches Some(out) ==> out.messages@ == tick_spec(old(self)@, frame@, now_us).messages,
            r matches Some(out) ==> out.backoff == tick_spec(old(self)@, frame@, now_us).backoff,
    {
        if control == AudioThreadControlSignal::ABORT {
            None
        } else {
            Some(self.tick(frame, now_us))
        }
    }
}

/// The per-frame statistics one analysis pass derives.
struct FrameStats {
    peak: u64,
    energy: u64,
    bass_sum: u64,
    bass_count: u64,
}

/// The frame's peak, total energy, bass volume sum and bass bucket count, in
/// one pass.
fn frame_stats(frame: &Vec<Bucket>) -> (r: FrameStats)
    requires
        frame_ok(frame@),
    ensures
        r.peak == frame_peak(frame@),
        r.energy == frame_energy(frame@),
        r.bass_sum == bass_sum(frame@),
        r.bass_count == bass_count(frame@),
{
    let ghost s = frame@;
    let mut peak: u64 = 0;
    let mut energy: u64 = 0;
    let mut bsum: u64 = 0;
    let mut bcount: u64 = 0;
    let mut i: usize = 0;
    proof {
        assert(s.take(0) =~= Seq::<Bucket>::empty());
    }
    while i < frame.len()
        invariant
            frame_ok(s),
            s == frame@,
            0 <= i <= s.len(),
            peak == frame_peak(s.take(i as int)),
            energy == frame_energy(s.take(i as int)),
            bsum == bass_sum(s.take(i as int)),
            bcount == bass_count(s.take(i as int)),
            peak <= BUCKET_VOLUME_MAX,
            energy <= i * BUCKET_VOLUME_MAX,
            bsum <= energy,
            bcount <= i,
        decreases s.len() - i,
    {
        proof {
            assert(s.take(i + 1).drop_last() =~= s.take(i as int));
            assert(s.take(i + 1).last() == s[i as int]);
            assert((i + 1) * BUCKET_VOLUME_MAX == i * BUCKET_VOLUME_MAX + BUCKET_VOLUME_MAX)
                by (nonlinear_arith);
        }
        let b = frame[i];
        if b.volume > peak {
            peak = b.volume;
        }
        energy = energy + b.volume;
        if b.freq <= BASS_CUTOFF_HZ {
            bsum = bsum + b.volume;
            bcount = bcount + 1;
        }
        i = i + 1;
    }
    proof {
        assert(s.take(s.len() as int) =~= s);
    }
    FrameStats { peak, energy, bass_sum: bsum, bass_count: bcount }
}

/// A frame's peak is bounded by the per-bucket bound.
proof fn lemma_frame_peak_bound(s: Seq<Bucket>)
    requires
        forall|i: int| 0 <= i < s.len() ==> s[i].volume <= BUCKET_VOLUME_MAX,
    ensures
        frame_peak(s) <= BUCKET_VOLUME_MAX,
    decreases s.len(),
{
    if s.len() > 0 {
        lemma_frame_peak_bound(s.drop_last());
    }
}

/// A frame's energy is bounded by its length times the per-bucket bound.
proof fn lemma_frame_energy_bound(s: Seq<Bucket>)
    requires
        forall|i: int| 0 <= i < s.len() ==> s[i].volume <= BUCKET_VOLUME_MAX,
    ensures
        0 <= frame_energy(s) <= s.len() * BUCKET_VOLUME_MAX,
    decreases s.len(),
{
    if s.len() > 0 {
        lemma_frame_energy_bound(s.drop_last());
        assert((s.len() - 1) * BUCKET_VOLUME_MAX + BUCKET_VOLUME_MAX == s.len()
            * BUCKET_VOLUME_MAX) by (nonlinear_arith);
    }
}

/// The bass buckets' summed volume never exceeds the whole frame's energy.
proof fn lemma_bass_sum_le_energy(s: Seq<Bucket>)
    ensures
        0 <= bass_sum(s) <= frame_energy(s),
        0 <= bass_count(s) <= s.len(),
    decreases s.len(),
{
    if s.len() > 0 {
        lemma_bass_sum_le_energy(s.drop_last());
    }
}

/// A mean of bounded samples, scaled by 10 and clamped to an intensity:
/// `clamp(sum / count * 10)`, or 0 when `count` is 0.
fn level_of(sum: u64, count: u64) -> (r: u8)
    requires
        sum <= 50 * WINDOW_SAMPLE_MAX,
    ensures
        count == 0 ==> r == 0,
        count != 0 ==> r == clamp_u8(sum as int / count as int * 10),
{
    if count == 0 {
        0
    } else {
        let mean: u64 = sum / count;
        proof {
            vstd::arithmetic::div_mod::lemma_div_nonincreasing(sum as int, count as int);
            vstd::arithmetic::div_mod::lemma_div_pos_is_pos(sum as int, count as int);
        }
        let scaled: u64 = mean * 10;
        if scaled > 255 {
            255
        } else {
            scaled as u8
        }
    }
}

/// The adaptive beat mapping on integer volumes: `x` mapped from
/// `[in_min, in_max]` onto `[0, 255]`, with the divisor floored at 1.
pub fn map_index(x: u64, in_min: u64, in_max: u64) -> (r: u8)
    requires
        in_min <= x <= in_max,
        in_max <= WINDOW_SAMPLE_MAX,
    ensures
        r == clamp_u8(map_spec(x as int, in_min as int, in_max as int, 0, MAX_BEAT_VOLUME as int)),
{
    let d: u64 = in_max - in_min;
    let divisor: u64 = if d < 1 {
        1
    } else {
        d
    };
    let scaled: u64 = (x - in_min) * 255 / divisor;
    proof {
        vstd::arithmetic::div_mod::lemma_div_pos_is_pos((x - in_min) * 255, divisor as int);
        if in_min < in_max {
            vstd::arithmetic::mul::lemma_mul_inequality(x - in_min, in_max - in_min, 255);
            vstd::arithmetic::div_mod::lemma_div_is_ordered(
                (x - in_min) * 255,
                (in_max - in_min) * 255,
                divisor as int,
            );
            assert((in_max - in_min) * 255 == divisor * 255);
            vstd::arithmetic::div_mod::lemma_div_multiples_vanish(255, divisor as int);
        }
        assert(scaled <= 255);
    }
    scaled as u8
}

/// The general linear range mapping, on machine integers. The bounds keep
/// every intermediate product within `isize` on any platform.
pub fn map(x: isize, in_min: isize, in_max: isize, out_min: isize, out_max: isize) -> (r: usize)
    requires
        -4096 <= in_min <= x <= 4096,
        in_min <= in_max <= 4096,
        -4096 <= out_min <= out_max <= 4096,
    ensures
        r == map_spec(x as int, in_min as int, in_max as int, out_min as int, out_max as int),
{
    let d: isize = in_max - in_min;
    let divisor: u64 = if d < 1 {
        1
    } else {
        d as u64
    };
    let span: u64 = (x - in_min) as u64;
    let gain: u64 = (out_max - out_min) as u64;
    proof {
        assert(span * gain <= 8192 * 8192) by (nonlinear_arith)
            requires
                span <= 8192,
                gain <= 8192,
        ;
        vstd::arithmetic::div_mod::lemma_div_pos_is_pos((span * gain) as int, divisor as int);
        vstd::arithmetic::div_mod::lemma_div_nonincreasing((span * gain) as int, divisor as int);
    }
    let q: u64 = span * gain / divisor;
    let scaled: isize = q as isize + out_min;
    let r: isize = if scaled < 0 {
        0
    } else {
        scaled
    };
    r as usize
}

/// An iteration's emitted signals are exactly what the emission predicates
/// say: one `Volume` iff its limiter passed, one `Bass` iff its limiter
/// passed, one `BeatVolume` iff the beat conditions held — and nothing else.
pub proof fn lemma_emissions_exact(pre: AnalyzerModel, frame: Seq<Bucket>, now: u64)
    ensures
        tick_emits_volume(pre, now) <==> exists|v: u8|
            tick_spec(pre, frame, now).signals.contains(Signal::Volume(v)),
        tick_emits_bass(pre, now) <==> exists|v: u8|
            tick_spec(pre, frame, now).signals.contains(Signal::Bass(v)),
        tick_emits_beat(pre, frame, now) <==> exists|v: u8|
            tick_spec(pre, frame, now).signals.contains(Signal::BeatVolume(v)),
        forall|v: u8| !tick_spec(pre, frame, now).signals.contains(Signal::BeatAlgo(v)),
{
    let m = tick_spec(pre, frame, now);
    if tick_emits_volume(pre, now) {
        assert(m.signals[0] == Signal::Volume(volume_level(tick_volume_window(pre, frame))));
        assert(m.signals.contains(m.signals[0]));
    }
    if tick_emits_bass(pre, now) {
        let i = if tick_emits_volume(pre, now) {
            1int
        } else {
            0int
        };
        assert(m.signals[i] == Signal::Bass(bass_level(frame)));
        assert(m.signals.contains(m.signals[i]));
    }
    if tick_emits_beat(pre, frame, now) {
        let i = m.signals.len() - 1;
        assert(m.signals[i] == Signal::BeatVolume(tick_mapped_index(pre, frame)));
        assert(m.signals.contains(m.signals[i]));
    }
    assert forall|i: int| 0 <= i < m.signals.len() implies {
        &&& (m.signals[i] is Volume ==> tick_emits_volume(pre, now))
        &&& (m.signals[i] is Bass ==> tick_emits_bass(pre, now))
        &&& (m.signals[i] is BeatVolume ==> tick_emits_beat(pre, frame, now))
        &&& !(m.signals[i] is BeatAlgo)
    } by {
        assert(m.signals =~= m.signals);
    }
}

/// Rate limiting: if one emission of a kind passes the limiter at `t1` (its
/// previous emission having been at `t0`), and the next passes at `t2`, the
/// two lie more than the kind's minimum interval apart.
pub proof fn law_rate_limit(t0: u64, t1: u64, t2: u64, interval: u64)
    requires
        rate_passed(t0, t1, interval),
        rate_passed(t1, t2, interval),
    ensures
        t2 - t1 > interval,
        t1 - t0 > interval,
{
}

/// Rate limiting at the analyzer: two iterations that both emit
/// `Signal::Volume` lie more than the minimum signal interval apart.
pub proof fn law_rate_limit_volume(
    s: AnalyzerModel,
    f1: Seq<Bucket>,
    t1: u64,
    f2: Seq<Bucket>,
    t2: u64,
)
    requires
        tick_emits_volume(s, t1),
        tick_emits_volume(tick_spec(s, f1, t1).state, t2),
    ensures
        t2 - t1 > SIGNAL_SPEED_US,
{
}

/// Rate limiting at the analyzer: two iterations that both emit
/// `Signal::Bass` lie more than the minimum signal interval apart.
pub proof fn law_rate_limit_bass(
    s: AnalyzerModel,
    f1: Seq<Bucket>,
    t1: u64,
    f2: Seq<Bucket>,
    t2: u64,
)
    requires
        tick_emits_bass(s, t1),
        tick_emits_bass(tick_spec(s, f1, t1).state, t2),
    ensures
        t2 - t1 > SIGNAL_SPEED_US,
{
}

/// Rate limiting at the analyzer: two iterations that both emit
/// `Signal::BeatVolume` lie more than the minimum signal interval apart.
pub proof fn law_rate_limit_beat(
    s: AnalyzerModel,
    f1: Seq<Bucket>,
    t1: u64,
    f2: Seq<Bucket>,
    t2: u64,
)
    requires
        tick_emits_beat(s, f1, t1),
        tick_emits_beat(tick_spec(s, f1, t1).state, f2, t2),
    ensures
        t2 - t1 > SIGNAL_SPEED_US,
{
}

/// Duplicate suppression: an iteration whose mapped beat index equals the one
/// the previous iteration emitted emits no `BeatVolume`, however much time
/// has passed.
pub proof fn law_duplicate_suppression(
    s: AnalyzerModel,
    f1: Seq<Bucket>,
    t1: u64,
    f2: Seq<Bucket>,
    t2: u64,
)
    requires
        tick_emits_beat(s, f1, t1),
        tick_mapped_index(tick_spec(s, f1, t1).state, f2) == tick_mapped_index(s, f1),
    ensures
        !tick_emits_beat(tick_spec(s, f1, t1).state, f2, t2),
{
}

/// The degenerate adaptive mapping: when the observed range has collapsed to
/// a point, any current value at or below it maps to 0 (the floored divisor
/// prevents division by zero).
pub proof fn law_adaptive_map_degenerate(x: int, m: int, out_max: int)
    requires
        x <= m,
        0 <= out_max,
    ensures
        map_spec(x, m, m, 0, out_max) == 0,
{
    let p = (x - m) * out_max;
    vstd::arithmetic::mul::lemma_mul_basics(out_max);
    vstd::arithmetic::mul::lemma_mul_inequality(x - m, 0, out_max);
    vstd::arithmetic::mul::lemma_mul_basics(p);
    vstd::arithmetic::div_mod::lemma_div_multiples_vanish(p, 1);
}

/// Monotonicity of the adaptive mapping: with a fixed non-degenerate range,
/// the mapping is non-decreasing in the current value.
pub proof fn law_adaptive_map_monotone(x1: int, x2: int, lo: int, hi: int)
    requires
        lo < hi,
        x1 <= x2,
    ensures
        map_spec(x1, lo, hi, 0, 255) <= map_spec(x2, lo, hi, 0, 255),
{
    vstd::arithmetic::mul::lemma_mul_inequality(x1 - lo, x2 - lo, 255);
    vstd::arithmetic::div_mod::lemma_div_is_ordered((x1 - lo) * 255, (x2 - lo) * 255, hi - lo);
}

/// The ends of the adaptive mapping: the range's minimum maps to 0, its
/// maximum to 255.
pub proof fn law_adaptive_map_ends(lo: int, hi: int)
    requires
        lo < hi,
    ensures
        map_spec(lo, lo, hi, 0, 255) == 0,
        map_spec(hi, lo, hi, 0, 255) == 255,
{
    vstd::arithmetic::div_mod::lemma_div_multiples_vanish(255, hi - lo);
    assert((hi - lo) * 255 == (hi - lo) * 255);
    assert(map_spec(hi, lo, hi, 0, 255) == (hi - lo) * 255 / (hi - lo));
}

/// Energy saving: an iteration backs off exactly when the long-term window,
/// current frame included, sums to zero; while backing off it emits no
/// `BeatVolume`; and as soon as energy returns, the very next iteration runs
/// at the normal rate again with no residual sleep.
pub proof fn law_energy_saving(s: AnalyzerModel, frame: Seq<Bucket>, now: u64)
    ensures
        tick_spec(s, frame, now).backoff <==> seq_sum(tick_long_window(s, frame)) == 0,
        tick_spec(s, frame, now).backoff ==> !tick_emits_beat(s, frame, now),
        tick_spec(s, frame, now).state.inactive == tick_spec(s, frame, now).backoff,
        tick_spec(s, frame, now).entered_idle <==> (tick_spec(s, frame, now).backoff && !s.inactive),
        tick_spec(s, frame, now).exited_idle <==> (!tick_spec(s, frame, now).backoff && s.inactive),
{
}

} // verus!
