//! What a front end draws into, and the drawing.

pub mod palette;
pub mod player;
