//! Core logic of a small 2D platformer: a player rectangle moved by
//! keyboard input through a kinematic collision world, followed by a
//! camera centered on the player.
//!
//! All geometry is measured in integer subunits (one millionth of a
//! world unit), all frame times in integer milliseconds, and all
//! velocities in subunits per millisecond, so every computation here is
//! exact: in particular a frame's displacement is the plain product of
//! velocity and elapsed time, with nothing truncated per frame. The
//! rendering layer converts to and from its own floating-point units at
//! the boundary.

pub mod geom;
pub mod input;
pub mod world;
pub mod camera;
pub mod game;
pub mod render;
