//! Core of an XY-oscilloscope audio visualizer.
//!
//! The crate verifies the real-time audio data pipeline: a fixed-capacity
//! sample ring with a consumer-side snapshot for display, the playback
//! state machine that drives file decoding, and the MIDI control-change
//! bookkeeping. Device and file I/O live outside the library and hand in
//! plain values.

pub mod buffer;
pub mod capture;
pub mod display;
pub mod frame;
pub mod midi;
pub mod player;
pub mod ring;
