//! A cross-platform terminal-UI session layer.
//!
//! An application draws into a character-grid buffer while the underlying
//! output device varies: a real terminal, a window that rasterizes the grid
//! into a texture, a firmware console, or a no-op test double.  This crate
//! holds the device-independent core of that bridge, with machine-checked
//! contracts: the terminal-session lifecycle (acquire device modes, release
//! them exactly once), the input normalizer (drain, classify and re-emit raw
//! device events in a fixed stage order each tick), and the render bridge
//! (keep a displayable image in step with the backend's pixel buffer).
//!
//! Device I/O itself stays outside: callers perform reads and writes and hand
//! the results to these functions as plain values.

pub mod backend;
pub mod bridge;
pub mod config;
pub mod errors;
pub mod input;
pub mod keymap;
pub mod platform;
pub mod rasterizer;
pub mod render;
pub mod seed;
pub mod session;
