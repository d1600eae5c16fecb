//! A minimal grid snake: a fixed-length body that advances one cell per
//! update tick, steered by direction keys, drawn as one square per cell.
//!
//! The game logic lives here and is verified; the window, the event loop
//! and the OpenGL surface are outside collaborators driven from a thin
//! unverified shell.

pub mod game;
pub mod snake;
