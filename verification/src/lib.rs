//! A small toolkit for windows that draw with OpenGL: a tree of renderers
//! that divides a window's surface into viewports, and the dispatcher that
//! turns the events of the platform into typed events and keeps the tick
//! schedule. The library decides and computes; it holds no window and no
//! graphics context. What it asks to be drawn or done, it hands to its caller
//! as plain values.

pub mod gl_utils;
pub mod image;
pub mod keys;
pub mod renderers;
pub mod window;
