//! User-space driver logic for a pressure-pad grid controller: report
//! decoding and encoding, and translation of hardware events to MIDI and OSC.

pub mod button;
pub mod device;
pub mod handler;
pub mod schedule;
pub mod shaper;
pub mod text;
