//! Generative sound: chirping tones, a drifting bass pattern, randomly chosen
//! regions of a recording, and the sample-level plumbing that mixes them.
//! The decisions and the bookkeeping live here, verified; the floating-point
//! synthesis and the audio output are done by the program around it.

pub mod file_sampler;
pub mod map_filter;
pub mod mix;
pub mod random_tone;
pub mod tone_pattern;

mod random;
