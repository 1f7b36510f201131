//! Core of a hotkey-triggered text-to-speech helper: the double-press gate,
//! the command template and its placeholder substitution, and the bounded
//! handoff of started speech processes to a single supervising consumer.

pub mod command;
pub mod config;
pub mod debounce;
pub mod icon;
pub mod supervisor;
