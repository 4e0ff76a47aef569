//! Real-time playback of multi-track note sequences on a serial tone device:
//! the timing arithmetic, the per-track scheduling decisions, the note counter,
//! the decoding of standard MIDI files into event sequences and the device's
//! message encoding.
pub mod clock;
pub mod device;
pub mod midi;
pub mod play;
pub mod smf;
