//! Audio decode-and-playback engine for a desktop sample browser.
//!
//! The engine accepts play/stop commands for arbitrary audio files, decodes
//! them through an ordered chain of fallback strategies, normalizes raw
//! samples to a canonical signal, and drives at most one active playback
//! voice at a time on a dedicated owner thread.

pub mod chain;
pub mod command;
pub mod engine;
pub mod probe;
pub mod sample;
pub mod scan;
pub mod service;
pub mod wav;
