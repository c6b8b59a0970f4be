//! Core of a terminal line editor: the text buffer, the cursor/viewport
//! model, the render engine, and the key-event state machine.
//!
//! The library is pure: screen output is modelled as a queue of terminal
//! commands ([`terminal::Terminal`]), which a thin unverified shell drains
//! and performs against the real terminal.

pub mod editor;
pub mod terminal;
pub mod view;
