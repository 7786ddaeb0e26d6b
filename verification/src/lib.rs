//! Core logic of a handheld morse-code chat device: a morse codec, a
//! fixed-capacity chat history, a compact network-message codec, and the
//! orchestrator state machine that ties them together. Hardware drivers
//! (buttons, display, radio, LED) live outside this crate; they hand events
//! in as plain values and carry the returned commands out.

pub mod app;
pub mod chat;
pub mod input;
pub mod morse;
pub mod network;
