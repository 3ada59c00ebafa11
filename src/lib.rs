//! Edge-triggered input tracking for a tactics game engine, together with
//! the small direction and vector helpers that the engine's movement code uses.
pub mod input;
pub mod direction;
pub mod transform;
