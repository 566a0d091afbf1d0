//! A snake simulation on an integer grid: a chain of body segments that moves
//! one cell per move tick, grows after eating, and ends its run when the head
//! leaves the viewport or runs into the body.

pub mod chain;
pub mod collision;
pub mod food;
pub mod game;
pub mod geometry;
pub mod phase;
