//! Voice capture and transcription core: resampling, WAV framing, energy
//! gating, the capture session state machine, device and stream selection,
//! and transcription routing.
//!
//! Audio is carried as signed 16-bit PCM samples: a normalized sample `x` in
//! `[-1, 1]` stands as `x * 32767`, clamped and truncated toward zero.

pub mod resample;
pub mod error;
pub mod wav;
pub mod gate;
pub mod device;
pub mod router;
pub mod events;
pub mod session;
pub mod laws;
