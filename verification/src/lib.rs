//! A thin, verified adapter between a C-compatible scoring boundary and a
//! beatmap difficulty and performance engine.
//!
//! The library decodes a beatmap from a byte buffer, runs the engine's
//! difficulty and performance passes with the caller's scoring parameters,
//! and projects the two scalar outputs (performance points and star rating)
//! into a two-field aggregate.  Floating-point values are carried as their
//! raw IEEE-754 bit patterns; the unverified boundary layer converts them at
//! the edge.

pub mod engine;
pub mod options;
pub mod score;
