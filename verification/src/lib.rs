//! Simulation core of a side-scrolling arcade shooter.
//!
//! All quantities are integers: lengths are counted in millionths of a pixel,
//! times in microseconds and speeds in pixels per second, so that a speed
//! multiplied by a time is a length.

pub mod data;
pub mod gfx;
pub mod phi;
pub mod collision;
pub mod bullets;
pub mod game;
pub mod main_menu;
pub mod order;
