//! A fixed-point digital audio signal-processing engine.
//!
//! Sample buffers are sequences of signed Q32.32 fixed-point amplitudes
//! (`fixed::FX_ONE` is the unit amplitude). The engine performs parametric
//! equalization, dynamic-range compression, spectral noise reduction,
//! spectral feature extraction, waveform summarization, and keeps bounded
//! rolling statistics across successive frames. The forward and inverse
//! Fourier transforms and the pitch detector are host capabilities with
//! floating-point interfaces: the engine prepares their inputs, consumes
//! their outputs, and makes every decision around them.

pub mod biquad;
pub mod compressor;
pub mod equalizer;
pub mod errors;
pub mod features;
pub mod fixed;
pub mod history;
pub mod pitch;
pub mod processor;
pub mod spectral;
pub mod transcend;
pub mod waveform;
