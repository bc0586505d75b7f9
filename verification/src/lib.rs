//! Core of a small interactive command shell: a line-editing buffer, a
//! bounded scrollback transcript, a command dispatcher, and the full-screen
//! rendering rules, all specified and verified. Terminal and filesystem
//! access are left to the embedding program, which drives the session loop
//! and answers its filesystem requests.

pub mod dispatch;
pub mod editor;
pub mod listing;
pub mod parse;
pub mod session;
pub mod text;
pub mod transcript;
