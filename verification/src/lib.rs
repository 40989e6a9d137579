//! Music theory for fretted instruments: pitch arithmetic on the twelve
//! semitones of the octave, scales and chords built from interval patterns,
//! tunings, fretboards, and the filter that marks the positions of chosen notes.

pub mod chord;
pub mod chord_catalog;
pub mod color;
pub mod error;
pub mod input;
pub mod instrument;
pub mod note;
pub mod pitch;
pub mod scale;
pub mod scale_catalog;
pub mod selection;
pub mod session;
pub mod text;
pub mod training;
