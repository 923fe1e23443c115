//! The discrete vocabulary the pipeline emits: perceptual `Signal` events,
//! operational `SystemMessage` telemetry, operator requests, and the shared
//! control word a running analysis loop obeys.

use vstd::prelude::*;

verus! {

/// A perceptual lighting signal; each payload is a saturating 0-255 intensity.
#[derive(Clone, Copy, Debug, PartialEq, Eq, Structural)]
pub enum Signal {
    /// Adaptively-normalized loudness spike relative to the short-term window.
    BeatVolume(u8),
    /// An externally detected beat pulse's duration in milliseconds.
    BeatAlgo(u8),
    /// Smoothed energy below the bass cutoff.
    Bass(u8),
    /// Smoothed overall loudness.
    Volume(u8),
}

/// Operational telemetry produced by the pipeline for the external observer.
/// Audio devices and serial ports are carried by name: the handles themselves
/// live with the embedding program.
#[derive(Clone, Debug, PartialEq, Eq)]
pub enum SystemMessage {
    Log(String),
    /// Wall-clock length of one analysis iteration, in microseconds.
    LoopSpeed(u64),
    AudioSelected(Option<String>),
    AudioDevicesView(Vec<String>),
    SerialSelected(Option<String>),
    SerialDevicesView(Vec<String>),
}

/// An operator request delivered over the control channel.
#[derive(Clone, Debug, PartialEq, Eq)]
pub enum FromFrontend {
    /// Select an audio input device by name, or none.
    SelectInputDevice(Option<String>),
    /// Select a serial output port by name, or none.
    SelectSerialDevice(Option<String>),
}

/// How a frequency frame is derived from the raw capture stream.
#[derive(Clone, Debug)]
pub enum Visualisation {
    Spectrum,
    Scope,
}

/// Values of the per-generation atomic control word shared between the
/// supervisor and a running analysis loop.
#[non_exhaustive]
pub struct AudioThreadControlSignal;

impl AudioThreadControlSignal {
    /// The loop keeps running.
    pub const CONTINUE: u8 = 0;
    /// The supervisor asks the loop to exit at its next iteration.
    pub const ABORT: u8 = 1;
    /// The loop has exited, on request or on a fatal device error.
    pub const DEAD: u8 = 2;
}

} // verus!
