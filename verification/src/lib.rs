//! Control logic of the Daleth additive synthesizer: the ADSR phase machine,
//! monophonic note tracking, the rules of the background preset tasks, the
//! integer parameter knob, preset-bank collection and wavetable windows.
//! The sample arithmetic itself lives outside this crate.
pub mod adsr;
pub mod notes;
pub mod tasks;
pub mod knob;
pub mod presets;
pub mod table;
