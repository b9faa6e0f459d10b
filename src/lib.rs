//! Lets a seekable byte source feed a streamed music handle through the four
//! callbacks (read, seek, tell, size) that a media engine drives.
//!
//! The handle reads a canonical PCM wave header to learn a sound's rate,
//! channels and length, and keeps playback and loop state as plain values;
//! it decodes and plays no audio itself.

pub mod header;
pub mod music;
pub mod source;
pub mod stream;
pub mod time;
