//! Control core of a generative stereo tone engine.
//!
//! The engine drives a stack of small complex matrices through a discrete
//! Lie-bracket flow and projects an oscillator bank through the resulting
//! unitary matrix to produce audio. This crate holds the parts of that engine
//! with exact content: the fixed configuration (matrix dimension, block size,
//! the harmonic ratio table), the renormalization schedule that decides when
//! accumulated numerical drift is corrected, and the registry that owns engine
//! instances behind plain integer handles.

pub mod config;
pub mod registry;
pub mod schedule;
