use vstd::prelude::*;

verus! {

/// Largest magnitude allowed for any coordinate or distance in a configuration.
pub const WORLD_LIMIT: i64 = 1_000_000_000_000;

/// Largest number of sprites of one category in a scene.
pub const MAX_GROUP: usize = 1000;

/// The immutable parameters of a session: play-field bounds, spawn band,
/// speeds and the counts and spacing of the scene's sprites.
#[derive(Clone, Copy, Debug, PartialEq, Eq)]
pub struct Config {
    pub min_x: i64,
    pub max_x: i64,
    pub min_y: i64,
    pub max_y: i64,
    /// Start (inclusive) of the band right of the field where cars and
    /// obstacles reappear.
    pub spawn_min_x: i64,
    /// End (exclusive) of that band.
    pub spawn_max_x: i64,
    /// Distance kept from the top and bottom edges when placing a car or obstacle.
    pub spawn_margin_y: i64,
    /// How far past `min_x` a car or obstacle travels before it is recycled.
    pub recycle_margin_x: i64,
    pub player_speed: u32,
    pub road_speed: u32,
    pub car_speed: u32,
    pub player_start_x: i64,
    pub road_line_count: usize,
    pub road_line_start_x: i64,
    pub road_line_spacing: i64,
    pub barrier_count: usize,
    pub barrier_spacing: i64,
    pub car_count: usize,
    pub obstacle_count: usize,
    pub start_health: u8,
}

pub open spec fn within_world(v: i64) -> bool {
    -WORLD_LIMIT <= v <= WORLD_LIMIT
}

impl Config {
    /// The bounds are ordered, the spawn band and the shrunk vertical band are
    /// non-empty, and every distance lies within the world limit.
    pub open spec fn wf(&self) -> bool {
        &&& within_world(self.min_x) && within_world(self.max_x)
        &&& within_world(self.min_y) && within_world(self.max_y)
        &&& within_world(self.spawn_min_x) && within_world(self.spawn_max_x)
        &&& within_world(self.spawn_margin_y) && within_world(self.recycle_margin_x)
        &&& within_world(self.player_start_x)
        &&& within_world(self.road_line_start_x) && within_world(self.road_line_spacing)
        &&& within_world(self.barrier_spacing)
        &&& self.min_x < self.max_x
        &&& self.min_y < self.max_y
        &&& self.spawn_min_x < self.spawn_max_x
        &&& 0 <= self.spawn_margin_y
        &&& 0 <= self.recycle_margin_x
        &&& self.min_y + self.spawn_margin_y < self.max_y - self.spawn_margin_y
        &&& self.road_line_count <= MAX_GROUP
        &&& self.barrier_count <= MAX_GROUP
        &&& self.car_count <= MAX_GROUP
        &&& self.obstacle_count <= MAX_GROUP
    }

    /// Lowest y (inclusive) at which a car or obstacle is placed.
    pub open spec fn spawn_min_y(&self) -> int {
        self.min_y + self.spawn_margin_y
    }

    /// Highest y (exclusive) at which a car or obstacle is placed.
    pub open spec fn spawn_max_y(&self) -> int {
        self.max_y - self.spawn_margin_y
    }

    /// The x below which a car or obstacle is recycled.
    pub open spec fn recycle_x(&self) -> int {
        self.min_x - self.recycle_margin_x
    }

    /// The game's own settings: a 1350 by 720 field centred on the origin,
    /// cars and obstacles reappearing between 700 and 1800, ten road lines
    /// and ten barriers per edge spaced 150 apart, four cars, four obstacles
    /// and five points of health.
    pub fn standard() -> (r: Config)
        ensures
            r.wf(),
            r.min_x == -675_000 && r.max_x == 675_000,
            r.min_y == -360_000 && r.max_y == 360_000,
            r.spawn_min_x == 700_000 && r.spawn_max_x == 1_800_000,
            r.spawn_margin_y == 60_000 && r.recycle_margin_x == 200_000,
            r.player_speed == 300 && r.road_speed == 900 && r.car_speed == 250,
            r.player_start_x == -500_000,
            r.road_line_count == 10 && r.road_line_start_x == -600_000,
            r.road_line_spacing == 150_000,
            r.barrier_count == 10 && r.barrier_spacing == 150_000,
            r.car_count == 4 && r.obstacle_count == 4,
            r.start_health == 5,
    {
        Config {
            min_x: -675_000,
            max_x: 675_000,
            min_y: -360_000,
            max_y: 360_000,
            spawn_min_x: 700_000,
            spawn_max_x: 1_800_000,
            spawn_margin_y: 60_000,
            recycle_margin_x: 200_000,
            player_speed: 300,
            road_speed: 900,
            car_speed: 250,
            player_start_x: -500_000,
            road_line_count: 10,
            road_line_start_x: -600_000,
            road_line_spacing: 150_000,
            barrier_count: 10,
            barrier_spacing: 150_000,
            car_count: 4,
            obstacle_count: 4,
            start_health: 5,
        }
    }
}

} // verus!
