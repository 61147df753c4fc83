//! A bridge between a host scripting environment and a native text-to-speech
//! engine: batch validation and padding, waveform extraction, ownership of
//! the loaded engine, and one stable error surface for every failure.
pub mod adapter;
pub mod error;
pub mod handle;
