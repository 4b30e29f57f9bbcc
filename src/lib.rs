//! Session lifecycle, state mirror, command dispatch and voice-call control
//! for a chat bot that plays audio in voice channels.

pub mod mirror;
pub mod model;
pub mod command;
pub mod voice;
pub mod media;
pub mod session;
