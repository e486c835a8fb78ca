//! Decision logic of a keyboard-sound daemon: the key-code table, the
//! xorshift noise generator, command-line parsing and completion, the
//! keystroke-to-sample choice, sound-pack bookkeeping and the ambience
//! settings, each with its contract.

pub mod prng;
pub mod text;
pub mod command;
pub mod completion;
pub mod keymap;
pub mod tap;
pub mod asmr;
pub mod voicing;
pub mod packs;
pub mod session;
pub mod cards;
