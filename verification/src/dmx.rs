//! The DMX universe: a 513-byte channel array (byte 0 is the start code) and
//! the reactive state machine that maps incoming `Signal` events to channel
//! mutations, color cycling and strobe cooldown included.
//!
//! A universe never touches hardware itself: each `signal` call returns, in
//! order, the frames to put on the wire and the holds to observe between
//! them. The `Dummy` variant accepts every signal as a no-op, for hosts
//! without a compatible serial adapter.

use vstd::prelude::*;

use crate::signals::Signal;

verus! {

/// Bytes in one DMX universe: the start code plus 512 channels.
pub const DMX_UNIVERSE_LEN: usize = 513;

/// Minimum interval between two color advances, in microseconds.
pub const COLOR_CYCLE_INTERVAL_US: u64 = 10_000_000;

/// Minimum interval between two strobe pulses, in microseconds.
pub const STROBE_COOLDOWN_US: u64 = 100_000;

/// A `Bass` payload must exceed this to fire the strobe.
pub const STROBE_THRESHOLD: u8 = 20;

/// A `Volume` payload below this paints the idle color.
pub const IDLE_VOLUME_THRESHOLD: u8 = 10;

/// Offset from the base channel group to the strobe group.
pub const CHANNEL_OFFSET_STROBE: usize = 10;

/// How long a full-white flash is held, in microseconds.
pub const FLASH_HOLD_US: u64 = 10_000;

/// How long a strobe pulse is held, in microseconds.
pub const STROBE_HOLD_US: u64 = 1_000;

/// The number of colors in the beat-driven cycle.
pub const COLOR_COUNT: u8 = 6;

/// The fixed palette the beat handler cycles through.
#[derive(Clone, Copy, Debug, PartialEq, Eq, Structural)]
pub enum Color {
    Red,
    Purple,
    Blue,
    Cyan,
    Green,
    Yellow,
}

/// The color at a cycle position.
pub open spec fn color_from_index_spec(index: u8) -> Color {
    if index == 0 {
        Color::Red
    } else if index == 1 {
        Color::Purple
    } else if index == 2 {
        Color::Blue
    } else if index == 3 {
        Color::Cyan
    } else if index == 4 {
        Color::Green
    } else {
        Color::Yellow
    }
}

/// A color's RGB triple.
pub open spec fn color_channels_spec(c: Color) -> Seq<u8> {
    match c {
        Color::Red => seq![255u8, 0u8, 0u8],
        Color::Purple => seq![255u8, 0u8, 255u8],
        Color::Blue => seq![0u8, 0u8, 255u8],
        Color::Cyan => seq![0u8, 255u8, 255u8],
        Color::Green => seq![0u8, 255u8, 0u8],
        Color::Yellow => seq![255u8, 255u8, 0u8],
    }
}

impl Color {
    /// The color at cycle position `index`; positions past the palette do not
    /// occur.
    pub fn from_index(index: u8) -> (c: Self)
        requires
            index < COLOR_COUNT,
        ensures
            c == color_from_index_spec(index),
    {
        match index {
            0 => Self::Red,
            1 => Self::Purple,
            2 => Self::Blue,
            3 => Self::Cyan,
            4 => Self::Green,
            _ => Color::Yellow,
        }
    }

    /// The color's RGB triple.
    pub fn channels(&self) -> (r: [u8; 3])
        ensures
            r@ == color_channels_spec(*self),
    {
        let r: [u8; 3] = match self {
            Color::Red => [255, 0, 0],
            Color::Purple => [255, 0, 255],
            Color::Blue => [0, 0, 255],
            Color::Cyan => [0, 255, 255],
            Color::Green => [0, 255, 0],
            Color::Yellow => [255, 255, 0],
        };
        proof {
            assert(r@ =~= color_channels_spec(*self));
        }
        r
    }
}

/// One hardware effect a signal decided: a full universe to put on the wire,
/// or a hold (in microseconds) to observe before the next frame.
#[derive(Debug, PartialEq, Eq)]
pub enum DmxAction {
    Transmit(Vec<u8>),
    Hold(u64),
}

/// The abstract value of a `DmxAction`.
#[verifier::ext_equal]
pub ghost enum DmxActionModel {
    Transmit(Seq<u8>),
    Hold(u64),
}

impl View for DmxAction {
    type V = DmxActionModel;

    open spec fn view(&self) -> DmxActionModel {
        match self {
            DmxAction::Transmit(frame) => DmxActionModel::Transmit(frame@),
            DmxAction::Hold(us) => DmxActionModel::Hold(*us),
        }
    }
}

/// The abstract values of a list of actions.
pub open spec fn actions_view(acts: Seq<DmxAction>) -> Seq<DmxActionModel> {
    acts.map_values(|a: DmxAction| a@)
}

/// A well-shaped wire effect: every transmitted frame is exactly one
/// universe, start code first.
pub open spec fn action_frame_ok(a: DmxActionModel) -> bool {
    match a {
        DmxActionModel::Transmit(frame) => frame.len() == DMX_UNIVERSE_LEN && frame[0] == 0,
        DmxActionModel::Hold(_) => true,
    }
}

/// The abstract state of a live universe.
#[verifier::ext_equal]
pub ghost struct RealModel {
    pub port_name: Seq<char>,
    pub channels: Seq<u8>,
    /// When the strobe last fired.
    pub last_update_us: u64,
    /// The current position in the color cycle.
    pub color_idx: u8,
    /// When the color cycle last advanced.
    pub color_set_time_us: u64,
}

/// The abstract state of a universe.
#[verifier::ext_equal]
pub ghost enum UniverseModel {
    Dummy,
    Real(RealModel),
}

/// What one signal decides on a live universe: the successor state and the
/// wire effects, in order.
#[verifier::ext_equal]
pub ghost struct DmxStep {
    pub state: RealModel,
    pub actions: Seq<DmxActionModel>,
}

/// A live universe's channel array after the color part of a `BeatVolume`
/// signal: master full, RGB set to the color.
pub open spec fn beat_on_channels(channels: Seq<u8>, color: Color) -> Seq<u8> {
    let c = color_channels_spec(color);
    channels.update(1, 255u8).update(2, c[0]).update(3, c[1]).update(4, c[2])
}

/// Whether a `BeatVolume` at `now` advances the color cycle.
pub open spec fn beat_advances_color(pre: RealModel, now: u64) -> bool {
    now - pre.color_set_time_us > COLOR_CYCLE_INTERVAL_US
}

/// The next position in the color cycle.
pub open spec fn next_color_idx(idx: u8) -> u8 {
    if idx == COLOR_COUNT - 1 {
        0
    } else {
        (idx + 1) as u8
    }
}

/// What a `BeatVolume(v)` signal decides.
pub open spec fn beat_volume_step(pre: RealModel, v: u8, now: u64) -> DmxStep {
    if v >= 1 {
        let advance = beat_advances_color(pre, now);
        let idx = if advance {
            next_color_idx(pre.color_idx)
        } else {
            pre.color_idx
        };
        let set_time = if advance {
            now
        } else {
            pre.color_set_time_us
        };
        let channels = beat_on_channels(pre.channels, color_from_index_spec(idx));
        DmxStep {
            state: RealModel {
                port_name: pre.port_name,
                channels,
                last_update_us: pre.last_update_us,
                color_idx: idx,
                color_set_time_us: set_time,
            },
            actions: seq![DmxActionModel::Transmit(channels)],
        }
    } else {
        let channels = pre.channels.update(1, 0u8);
        DmxStep {
            state: RealModel {
                port_name: pre.port_name,
                channels,
                last_update_us: pre.last_update_us,
                color_idx: pre.color_idx,
                color_set_time_us: pre.color_set_time_us,
            },
            actions: seq![DmxActionModel::Transmit(channels)],
        }
    }
}

/// What a `BeatAlgo` signal decides: a blocking full-white flash.
pub open spec fn beat_algo_step(pre: RealModel) -> DmxStep {
    let on = pre.channels.update(1, 255u8).update(2, 255u8).update(3, 255u8).update(4, 255u8);
    let off = on.update(1, 0u8);
    DmxStep {
        state: RealModel {
            port_name: pre.port_name,
            channels: off,
            last_update_us: pre.last_update_us,
            color_idx: pre.color_idx,
            color_set_time_us: pre.color_set_time_us,
        },
        actions: seq![
            DmxActionModel::Transmit(on),
            DmxActionModel::Hold(FLASH_HOLD_US),
            DmxActionModel::Transmit(off),
        ],
    }
}

/// Whether a `Bass(v)` at `now` fires the strobe: over the threshold and out
/// of the cooldown. Both must hold.
pub open spec fn bass_fires(pre: RealModel, v: u8, now: u64) -> bool {
    v > STROBE_THRESHOLD && now - pre.last_update_us > STROBE_COOLDOWN_US
}

/// What a `Bass(v)` signal decides: a short white pulse on the strobe group,
/// or nothing while below threshold or cooling down.
pub open spec fn bass_step(pre: RealModel, v: u8, now: u64) -> DmxStep {
    if bass_fires(pre, v, now) {
        let on = pre.channels.update(10, 255u8).update(11, 255u8).update(12, 255u8).update(
            13,
            255u8,
        );
        let off = on.update(10, 0u8);
        DmxStep {
            state: RealModel {
                port_name: pre.port_name,
                channels: off,
                last_update_us: now,
                color_idx: pre.color_idx,
                color_set_time_us: pre.color_set_time_us,
            },
            actions: seq![
                DmxActionModel::Transmit(on),
                DmxActionModel::Hold(STROBE_HOLD_US),
                DmxActionModel::Transmit(off),
            ],
        }
    } else {
        DmxStep { state: pre, actions: Seq::empty() }
    }
}

/// What a `Volume(v)` signal decides: near silence paints the fixed idle
/// color; otherwise nothing.
pub open spec fn volume_step(pre: RealModel, v: u8) -> DmxStep {
    if v < IDLE_VOLUME_THRESHOLD {
        let channels = pre.channels.update(1, 30u8).update(2, 255u8).update(3, 0u8).update(
            4,
            255u8,
        );
        DmxStep {
            state: RealModel {
                port_name: pre.port_name,
                channels,
                last_update_us: pre.last_update_us,
                color_idx: pre.color_idx,
                color_set_time_us: pre.color_set_time_us,
            },
            actions: seq![DmxActionModel::Transmit(channels)],
        }
    } else {
        DmxStep { state: pre, actions: Seq::empty() }
    }
}

/// What one signal decides on a live universe.
pub open spec fn real_signal_spec(pre: RealModel, s: Signal, now: u64) -> DmxStep {
    match s {
        Signal::BeatVolume(v) => beat_volume_step(pre, v, now),
        Signal::BeatAlgo(_) => beat_algo_step(pre),
        Signal::Bass(v) => bass_step(pre, v, now),
        Signal::Volume(v) => volume_step(pre, v),
    }
}

/// A live universe bound to a named serial port.
pub struct DmxUniverseReal {
    port_name: String,
    channels: Vec<u8>,
    last_update_us: u64,
    color_idx: u8,
    color_set_time_us: u64,
}

impl View for DmxUniverseReal {
    type V = RealModel;

    closed spec fn view(&self) -> RealModel {
        RealModel {
            port_name: self.port_name@,
            channels: self.channels@,
            last_update_us: self.last_update_us,
            color_idx: self.color_idx,
            color_set_time_us: self.color_set_time_us,
        }
    }
}

/// The invariant of a live universe: one full channel array whose start code
/// stays zero, and a color position inside the palette.
pub open spec fn real_wf(m: RealModel) -> bool {
    &&& m.channels.len() == DMX_UNIVERSE_LEN
    &&& m.channels[0] == 0
    &&& m.color_idx < COLOR_COUNT
}

/// `now` does not lie before a timestamp the universe holds: the caller's
/// clock is monotone.
pub open spec fn real_time_ok(m: RealModel, now: u64) -> bool {
    &&& now >= m.last_update_us
    &&& now >= m.color_set_time_us
}

impl DmxUniverseReal {
    fn new(port_path: String, now_us: u64) -> (u: DmxUniverseReal)
        ensures
            real_wf(u@),
            u@ == (RealModel {
                port_name: port_path@,
                channels: Seq::new(DMX_UNIVERSE_LEN as nat, |i: int| 0u8),
                last_update_us: now_us,
                color_idx: 0,
                color_set_time_us: now_us,
            }),
    {
        let mut channels: Vec<u8> = Vec::new();
        let mut i: usize = 0;
        while i < DMX_UNIVERSE_LEN
            invariant
                0 <= i <= DMX_UNIVERSE_LEN,
                channels@.len() == i,
                forall|j: int| 0 <= j < i ==> channels@[j] == 0u8,
            decreases DMX_UNIVERSE_LEN - i,
        {
            channels.push(0);
            i = i + 1;
        }
        let u = DmxUniverseReal {
            port_name: port_path,
            channels,
            last_update_us: now_us,
            color_idx: 0,
            color_set_time_us: now_us,
        };
        proof {
            assert(u@.channels =~= Seq::new(DMX_UNIVERSE_LEN as nat, |i: int| 0u8));
        }
        u
    }

    /// Apply one signal at time `now_us`; returns the wire effects to
    /// perform, in order.
    fn signal(&mut self, signal: Signal, now_us: u64) -> (acts: Vec<DmxAction>)
        requires
            real_wf(old(self)@),
            real_time_ok(old(self)@, now_us),
        ensures
            real_wf(final(self)@),
            real_time_ok(final(self)@, now_us),
            final(self)@ == real_signal_spec(old(self)@, signal, now_us).state,
            actions_view(acts@) == real_signal_spec(old(self)@, signal, now_us).actions,
    {
        let ghost pre = self@;
        let ghost step = real_signal_spec(pre, signal, now_us);
        let mut acts: Vec<DmxAction> = Vec::new();
        match signal {
            Signal::BeatVolume(volume) => {
                if volume >= 1 {
                    if now_us - self.color_set_time_us > COLOR_CYCLE_INTERVAL_US {
                        self.color_set_time_us = now_us;
                        if self.color_idx == COLOR_COUNT - 1 {
                            self.color_idx = 0;
                        } else {
                            self.color_idx = self.color_idx + 1;
                        }
                    }
                    let c = Color::from_index(self.color_idx).channels();
                    self.channels.set(1, 255);
                    self.channels.set(2, c[0]);
                    self.channels.set(3, c[1]);
                    self.channels.set(4, c[2]);
                    acts.push(DmxAction::Transmit(clone_frame(&self.channels)));
                } else {
                    self.channels.set(1, 0);
                    acts.push(DmxAction::Transmit(clone_frame(&self.channels)));
                }
            },
            Signal::BeatAlgo(_) => {
                self.channels.set(1, 255);
                self.channels.set(2, 255);
                self.channels.set(3, 255);
                self.channels.set(4, 255);
                acts.push(DmxAction::Transmit(clone_frame(&self.channels)));
                acts.push(DmxAction::Hold(FLASH_HOLD_US));
                self.channels.set(1, 0);
                acts.push(DmxAction::Transmit(clone_frame(&self.channels)));
            },
            Signal::Bass(v) => {
                if v > STROBE_THRESHOLD && now_us - self.last_update_us > STROBE_COOLDOWN_US {
                    self.last_update_us = now_us;
                    self.channels.set(1 + CHANNEL_OFFSET_STROBE - 1, 255);
                    self.channels.set(2 + CHANNEL_OFFSET_STROBE - 1, 255);
                    self.channels.set(3 + CHANNEL_OFFSET_STROBE - 1, 255);
                    self.channels.set(4 + CHANNEL_OFFSET_STROBE - 1, 255);
                    acts.push(DmxAction::Transmit(clone_frame(&self.channels)));
                    acts.push(DmxAction::Hold(STROBE_HOLD_US));
                    self.channels.set(1 + CHANNEL_OFFSET_STROBE - 1, 0);
                    acts.push(DmxAction::Transmit(clone_frame(&self.channels)));
                }
            },
            Signal::Volume(v) => {
                if v < IDLE_VOLUME_THRESHOLD {
                    self.channels.set(1, 30);
                    self.channels.set(2, 255);
                    self.channels.set(3, 0);
                    self.channels.set(4, 255);
                    acts.push(DmxAction::Transmit(clone_frame(&self.channels)));
                }
            },
        }
        proof {
            assert(self@ =~= step.state);
            assert(actions_view(acts@) =~= step.actions);
        }
        acts
    }
}

/// A copy of the current channel array, to be put on the wire.
fn clone_frame(channels: &Vec<u8>) -> (r: Vec<u8>)
    ensures
        r@ == channels@,
{
    let r = channels.clone();
    proof {
        assert(r@ =~= channels@);
    }
    r
}

/// A DMX universe: `Dummy` accepts all signals as no-ops; `Real` owns the
/// channel array and the reactive state.
pub enum DmxUniverse {
    Dummy,
    Real(DmxUniverseReal),
}

impl View for DmxUniverse {
    type V = UniverseModel;

    open spec fn view(&self) -> UniverseModel {
        match self {
            DmxUniverse::Dummy => UniverseModel::Dummy,
            DmxUniverse::Real(u) => UniverseModel::Real(u@),
        }
    }
}

/// What one signal decides on any universe: a dummy universe never changes
/// and never acts.
pub open spec fn universe_signal_spec(pre: UniverseModel, s: Signal, now: u64) -> (
    UniverseModel,
    Seq<DmxActionModel>,
) {
    match pre {
        UniverseModel::Dummy => (UniverseModel::Dummy, Seq::empty()),
        UniverseModel::Real(r) => {
            let step = real_signal_spec(r, s, now);
            (UniverseModel::Real(step.state), step.actions)
        },
    }
}

/// The universe's invariant.
pub open spec fn universe_wf(m: UniverseModel) -> bool {
    match m {
        UniverseModel::Dummy => true,
        UniverseModel::Real(r) => real_wf(r),
    }
}

/// Clock monotonicity for the universe.
pub open spec fn universe_time_ok(m: UniverseModel, now: u64) -> bool {
    match m {
        UniverseModel::Dummy => true,
        UniverseModel::Real(r) => real_time_ok(r, now),
    }
}

impl DmxUniverse {
    /// A live universe bound to the serial port at `port_path`, started at
    /// time `now_us` with all channels dark.
    pub fn new(port_path: String, now_us: u64) -> (u: Self)
        ensures
            universe_wf(u@),
            u@ == UniverseModel::Real(
                RealModel {
                    port_name: port_path@,
                    channels: Seq::new(DMX_UNIVERSE_LEN as nat, |i: int| 0u8),
                    last_update_us: now_us,
                    color_idx: 0,
                    color_set_time_us: now_us,
                },
            ),
    {
        Self::Real(DmxUniverseReal::new(port_path, now_us))
    }

    /// A universe that accepts all signals as no-ops.
    pub fn new_dummy() -> (u: Self)
        ensures
            u@ == UniverseModel::Dummy,
    {
        Self::Dummy
    }

    /// Apply one signal at time `now_us`; returns the wire effects to
    /// perform, in order. Every transmitted frame is one full universe with
    /// the start code first.
    pub fn signal(&mut self, signal: Signal, now_us: u64) -> (acts: Vec<DmxAction>)
        requires
            universe_wf(old(self)@),
            universe_time_ok(old(self)@, now_us),
        ensures
            universe_wf(final(self)@),
            universe_time_ok(final(self)@, now_us),
            final(self)@ == universe_signal_spec(old(self)@, signal, now_us).0,
            actions_view(acts@) == universe_signal_spec(old(self)@, signal, now_us).1,
            forall|i: int|
                0 <= i < acts@.len() ==> action_frame_ok(#[trigger] actions_view(acts@)[i]),
    {
        let acts = match self {
            DmxUniverse::Dummy => Vec::new(),
            DmxUniverse::Real(u) => u.signal(signal, now_us),
        };
        proof {
            law_frame_shape(old(self)@, signal, now_us);
            assert(actions_view(acts@) =~= universe_signal_spec(old(self)@, signal, now_us).1);
        }
        acts
    }
}

/// Every frame a signal decides to transmit is exactly one universe, 513
/// bytes with byte 0 equal to 0, whichever signal triggered it.
pub proof fn law_frame_shape(pre: UniverseModel, s: Signal, now: u64)
    requires
        universe_wf(pre),
    ensures
        universe_wf(universe_signal_spec(pre, s, now).0),
        forall|i: int|
            0 <= i < universe_signal_spec(pre, s, now).1.len() ==> action_frame_ok(
                #[trigger] universe_signal_spec(pre, s, now).1[i],
            ),
{
}

/// Color cycling holds its position: if a `BeatVolume(v >= 1)` advanced the
/// cycle at `t1`, another one less than the cycle interval later does not
/// advance it again.
pub proof fn law_color_cycle_hold(pre: RealModel, v1: u8, t1: u64, v2: u8, t2: u64)
    requires
        real_wf(pre),
        v1 >= 1,
        v2 >= 1,
        beat_advances_color(pre, t1),
        t2 - t1 <= COLOR_CYCLE_INTERVAL_US,
    ensures
        beat_volume_step(beat_volume_step(pre, v1, t1).state, v2, t2).state.color_idx
            == beat_volume_step(pre, v1, t1).state.color_idx,
{
}

/// Color cycling advances: a `BeatVolume(v >= 1)` arriving more than the
/// cycle interval after the previous one advances the position by exactly 1
/// modulo the palette size.
pub proof fn law_color_cycle_advance(pre: RealModel, v1: u8, t1: u64, v2: u8, t2: u64)
    requires
        real_wf(pre),
        real_time_ok(pre, t1),
        v1 >= 1,
        v2 >= 1,
        t1 <= t2,
        t2 - t1 > COLOR_CYCLE_INTERVAL_US,
    ensures
        beat_volume_step(beat_volume_step(pre, v1, t1).state, v2, t2).state.color_idx as int == (
        beat_volume_step(pre, v1, t1).state.color_idx + 1) as int % (COLOR_COUNT as int),
{
}

/// Strobe cooldown suppresses: if a `Bass(v > 20)` fired the strobe at `t1`,
/// another one within the cooldown does not fire, however loud.
pub proof fn law_strobe_cooldown_suppress(pre: RealModel, v1: u8, t1: u64, v2: u8, t2: u64)
    requires
        bass_fires(pre, v1, t1),
        t2 - t1 <= STROBE_COOLDOWN_US,
    ensures
        !bass_fires(bass_step(pre, v1, t1).state, v2, t2),
        bass_step(bass_step(pre, v1, t1).state, v2, t2).actions == Seq::<DmxActionModel>::empty(),
{
}

/// Strobes spaced past the cooldown fire independently: after a fire at
/// `t1`, a `Bass(v > 20)` more than the cooldown later fires again.
pub proof fn law_strobe_cooldown_independent(pre: RealModel, v1: u8, t1: u64, v2: u8, t2: u64)
    requires
        bass_fires(pre, v1, t1),
        v2 > STROBE_THRESHOLD,
        t2 - t1 > STROBE_COOLDOWN_US,
    ensures
        bass_fires(bass_step(pre, v1, t1).state, v2, t2),
        bass_step(bass_step(pre, v1, t1).state, v2, t2).actions.len() == 3,
{
}

/// A request to the DMX side of the pipeline: switch to another serial port,
/// by name, or to none (dummy mode).
#[derive(Clone, Debug, PartialEq, Eq)]
pub enum DMXControl {
    ChangePort(Option<String>),
}

/// A USB device identity, as vendor and product id.
#[derive(Clone, Copy, Debug, PartialEq, Eq, Structural)]
pub struct UsbDevice {
    pub vid: u16,
    pub pid: u16,
}

/// Whether a USB identity is a known USB-to-DMX adapter (the allowlist holds
/// one entry: the Eurolite USB-DMX512-PRO cable interface).
pub open spec fn usb_allowlisted(vid: u16, pid: u16) -> bool {
    vid == 1027 && pid == 24577
}

/// The known USB-to-DMX adapters: exactly those on the allowlist.
pub fn usb_devices() -> (v: Vec<UsbDevice>)
    ensures
        v@ == seq![(UsbDevice { vid: 1027, pid: 24577 })],
        forall|i: int| 0 <= i < v@.len() ==> usb_allowlisted(v@[i].vid, v@[i].pid),
{
    let mut v: Vec<UsbDevice> = Vec::new();
    v.push(UsbDevice { vid: 1027, pid: 24577 });
    proof {
        assert(v@ =~= seq![(UsbDevice { vid: 1027, pid: 24577 })]);
    }
    v
}

/// A serial port as the selection policy sees it: its name, and its USB
/// identity where it is a USB port.
#[derive(Clone, Debug)]
pub struct PortInfo {
    pub port_name: String,
    pub usb: Option<UsbDevice>,
}

/// Whether a port matches the USB-to-DMX allowlist.
pub open spec fn port_matches(p: PortInfo) -> bool {
    match p.usb {
        Some(u) => usb_allowlisted(u.vid, u.pid),
        None => false,
    }
}

/// The serial-port selection policy: the first port whose USB identity is on
/// the allowlist, or none, in which case the universe runs in dummy mode.
pub fn find_dmx_port(ports: &Vec<PortInfo>) -> (r: Option<usize>)
    ensures
        r matches Some(i) ==> 0 <= i < ports@.len() && port_matches(ports@[i as int]) && forall|
            j: int,
        | 0 <= j < i ==> !port_matches(ports@[j]),
        r is None ==> forall|j: int| 0 <= j < ports@.len() ==> !port_matches(ports@[j]),
{
    let mut i: usize = 0;
    while i < ports.len()
        invariant
            0 <= i <= ports@.len(),
            forall|j: int| 0 <= j < i ==> !port_matches(ports@[j]),
        decreases ports@.len() - i,
    {
        let matched: bool = match &ports[i].usb {
            Some(u) => u.vid == 1027 && u.pid == 24577,
            None => false,
        };
        if matched {
            return Some(i);
        }
        i = i + 1;
    }
    None
}

} // verus!
