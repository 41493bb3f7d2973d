//! Smart backspace for Hangul: peel one jamo off a composed syllable and
//! replay what is left as keystrokes.

pub mod jamo;
pub mod orchestrator;
pub mod typist;
