//! SpeechX's verified core: the hotkey chord machine and session
//! decisions, the language registry and command words, transcript and
//! engine logic, and the text-injection encoding.

pub mod asr;
pub mod audio;
pub mod config;
pub mod hotkey;
pub mod inject;
pub mod lang;
pub mod text;
