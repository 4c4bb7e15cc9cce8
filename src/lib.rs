//! Screen-region selection: a small state machine that switches between an
//! idle launcher view and a fullscreen overlay, and turns a pointer drag into
//! a normalized rectangle.

pub mod geometry;
pub mod states;
pub mod app;
