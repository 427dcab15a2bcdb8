//! A deterministic one-shot chord renderer.
//!
//! The crate holds the discrete side of the synthesizer: chord layout,
//! seeded per-voice parameters, the frame schedule with its glide cutover,
//! channel weighting decisions, mix-down normalization, and the clamping
//! and interleaving of quantized stereo samples.  The floating-point
//! waveform evaluation and the audio-file output sit outside the library.

pub mod chord;
pub mod render;
pub mod sample;
pub mod voice;
