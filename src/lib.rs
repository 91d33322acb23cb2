//! Game-session logic of a small top-down road racer: the scene's starting
//! layout, the per-frame movement and recycling rules, and the
//! collision-driven health bookkeeping.
//!
//! Positions are integers in thousandths of a world unit, elapsed time is in
//! milliseconds and speeds are in world units per second, so that a speed
//! times an elapsed time is exactly a displacement in position units.
pub mod config;
pub mod state;
pub mod sprite;
pub mod draw;
pub mod movement;
pub mod collision;
pub mod scene;
