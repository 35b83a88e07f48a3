//! Terminal viewport and input subsystem of a live top-down game client.
//!
//! The library maps world positions onto a character grid and back, builds
//! each frame as a grid of glyphs plus the paint commands that draw it,
//! keeps a bounded log strip, and turns raw key and mouse events into
//! player commands. Terminal I/O itself lives outside the library.
pub mod display;
pub mod game_state;
pub mod input;
pub mod paint;
pub mod renderer;
pub mod terminal_logger;
pub mod view;
pub mod viewport;
