//! Translation of MIDI note events into virtual keyboard key commands.
//!
//! The library owns the event-translation logic: classifying raw MIDI
//! messages, normalizing pitches into a key layout table, and producing
//! key-state-change commands. Talking to the actual MIDI backend and to the
//! OS virtual-input device is left to the surrounding application, which
//! hands this library plain values.

pub mod layout;
pub mod pitch;
pub mod ports;
pub mod translate;
