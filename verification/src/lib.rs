//! Core of a small ambient-noise player.
//!
//! The library holds everything the player decides: how a catalog of tracks
//! is built from file paths, how toggling a track starts, pauses or resumes
//! its stream, and how volume changes are stored and forwarded. Every step
//! returns the one backend command the caller must perform; the caller owns
//! the actual audio streams and the user interface.

pub mod files;
pub mod laws;
pub mod player;
pub mod text;
