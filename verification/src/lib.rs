//! A custom window header (title bar) widget for applications that disable
//! their platform window decorations.
//!
//! The library owns the header's sizing policy, its rendering as a sequence of
//! filled-rectangle draw commands, the hit-testing of pointer presses against
//! the three control buttons, and the translation of the resulting gestures
//! into window-level actions. The enclosing application shell converts between
//! these plain values and its GUI toolkit.

pub mod dispatch;
pub mod event;
pub mod geometry;
pub mod header;
pub mod icons;
pub mod style;
