use vstd::prelude::*;
use crate::config::Config;

verus! {

/// The category of a sprite, fixed when it is created.
#[derive(Clone, Copy, Debug, PartialEq, Eq, Structural)]
pub enum SpriteKind {
    Player,
    RoadLine,
    Barrier,
    Car,
    Obstacle,
}

/// A sprite of the scene: its category, its index within that category, and
/// its position.
#[derive(Clone, Copy, Debug, PartialEq, Eq, Structural)]
pub struct Sprite {
    pub kind: SpriteKind,
    pub slot: usize,
    pub x: i64,
    pub y: i64,
}

/// A position drawn for a car or obstacle that enters the scene.
#[derive(Clone, Copy, Debug, PartialEq, Eq, Structural)]
pub struct SpawnPoint {
    pub x: i64,
    pub y: i64,
}

/// Road lines and barriers wrap around exactly when they leave the field.
pub open spec fn wraps(k: SpriteKind) -> bool {
    k == SpriteKind::RoadLine || k == SpriteKind::Barrier
}

/// Cars and obstacles are recycled to a fresh spawn point.
pub open spec fn recycles(k: SpriteKind) -> bool {
    k == SpriteKind::Car || k == SpriteKind::Obstacle
}

/// The position lies in the spawn band: x in `[spawn_min_x, spawn_max_x)` and
/// y in the vertical band shrunk by the spawn margin.
pub open spec fn in_spawn_band(cfg: Config, x: int, y: int) -> bool {
    &&& cfg.spawn_min_x <= x < cfg.spawn_max_x
    &&& cfg.spawn_min_y() <= y < cfg.spawn_max_y()
}

impl SpriteKind {
    pub fn is_wrapping(&self) -> (r: bool)
        ensures
            r == wraps(*self),
    {
        match self {
            SpriteKind::RoadLine | SpriteKind::Barrier => true,
            _ => false,
        }
    }

    pub fn is_recycled(&self) -> (r: bool)
        ensures
            r == recycles(*self),
    {
        match self {
            SpriteKind::Car | SpriteKind::Obstacle => true,
            _ => false,
        }
    }
}

} // verus!
