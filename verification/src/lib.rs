//! Audio-to-light signal pipeline: rolling statistics over frequency frames,
//! adaptive beat mapping, rate-limited signal emission, a DMX512 universe
//! state machine, and the supervisor that hot-swaps the audio input device.
//!
//! The library is pure: time enters as microsecond counters, audio enters as
//! integer frequency-bucket frames, and every hardware effect leaves as a
//! value (a frame to transmit, a hold to perform) for the embedding program
//! to carry out.

pub mod analyzer;
pub mod dmx;
pub mod signals;
pub mod supervisor;
pub mod window;
pub mod ws;
