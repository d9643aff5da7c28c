//! A side-scrolling character: geometry, motion, the character's typed state
//! machine, the bodies it collides with, and the per-tick world step.

pub mod boy;
pub mod context;
pub mod geometry;
pub mod image;
pub mod keys;
pub mod laws;
pub mod machine;
pub mod platform;
pub mod sheet;
pub mod states;
pub mod steady;
pub mod walk;
