use vstd::prelude::*;
use crate::config::{Config, MAX_GROUP, WORLD_LIMIT};
use crate::draw::spawn_point;
use crate::sprite::{SpawnPoint, Sprite, SpriteKind, in_spawn_band};
use crate::state::GameState;

verus! {

/// Sprites of the scene whose position is fixed: the player, the road lines,
/// and the barriers along the top and bottom edges.
pub open spec fn fixed_count(cfg: Config) -> int {
    1 + cfg.road_line_count + 2 * cfg.barrier_count
}

/// Number of sprites in the scene: the fixed ones, then the cars and obstacles.
pub open spec fn scene_len(cfg: Config) -> int {
    fixed_count(cfg) + cfg.car_count + cfg.obstacle_count
}

/// The `i`-th sprite of the starting scene, where a car or obstacle stands at
/// `spawn`. In order: the player at `(player_start_x, 0)`; road line `j` at
/// `(road_line_start_x + j * road_line_spacing, 0)`; top barrier `j` at
/// `(min_x + j * barrier_spacing, max_y)`; bottom barrier `j` (slot
/// `barrier_count + j`) at `(min_x + j * barrier_spacing, min_y)`; then the
/// cars and the obstacles.
pub open spec fn scene_sprite(cfg: Config, i: int, spawn: SpawnPoint) -> Sprite {
    let r = cfg.road_line_count as int;
    let b = cfg.barrier_count as int;
    let c = cfg.car_count as int;
    if i == 0 {
        Sprite { kind: SpriteKind::Player, slot: 0, x: cfg.player_start_x, y: 0 }
    } else if i < 1 + r {
        let j = i - 1;
        Sprite {
            kind: SpriteKind::RoadLine,
            slot: j as usize,
            x: (cfg.road_line_start_x + j * cfg.road_line_spacing) as i64,
            y: 0,
        }
    } else if i < 1 + r + b {
        let j = i - 1 - r;
        Sprite {
            kind: SpriteKind::Barrier,
            slot: j as usize,
            x: (cfg.min_x + j * cfg.barrier_spacing) as i64,
            y: cfg.max_y,
        }
    } else if i < 1 + r + 2 * b {
        let j = i - 1 - r - b;
        Sprite {
            kind: SpriteKind::Barrier,
            slot: (b + j) as usize,
            x: (cfg.min_x + j * cfg.barrier_spacing) as i64,
            y: cfg.min_y,
        }
    } else if i < fixed_count(cfg) + c {
        Sprite { kind: SpriteKind::Car, slot: (i - fixed_count(cfg)) as usize, x: spawn.x, y: spawn.y }
    } else {
        Sprite {
            kind: SpriteKind::Obstacle,
            slot: (i - fixed_count(cfg) - c) as usize,
            x: spawn.x,
            y: spawn.y,
        }
    }
}

/// The spawn point that `spawns` gives to the `i`-th sprite of the scene;
/// it matters only for cars and obstacles.
pub open spec fn spawn_for(cfg: Config, spawns: Seq<SpawnPoint>, i: int) -> SpawnPoint {
    if i >= fixed_count(cfg) { spawns[i - fixed_count(cfg)] } else { SpawnPoint { x: 0, y: 0 } }
}

/// What may come of building the starting scene: every sprite is where
/// `scene_sprite` puts it, and every car and obstacle lies in the spawn band.
pub open spec fn scene_outcome(cfg: Config, r: Seq<Sprite>) -> bool {
    &&& r.len() == scene_len(cfg)
    &&& forall|i: int|
        0 <= i < r.len() ==> #[trigger] r[i] == scene_sprite(cfg, i, SpawnPoint { x: r[i].x, y: r[i].y })
    &&& forall|i: int|
        fixed_count(cfg) <= i < r.len() ==> in_spawn_band(cfg, #[trigger] r[i].x as int, r[i].y as int)
}

proof fn lemma_offset_fits(start: i64, step: i64, j: int)
    requires
        -WORLD_LIMIT <= start <= WORLD_LIMIT,
        -WORLD_LIMIT <= step <= WORLD_LIMIT,
        0 <= j <= MAX_GROUP,
    ensures
        -2_000_000_000_000_000 <= start + j * step <= 2_000_000_000_000_000,
{
    assert(-1_000_000_000_000_000 <= j * step <= 1_000_000_000_000_000) by (nonlinear_arith)
        requires
            -1_000_000_000_000 <= step <= 1_000_000_000_000,
            0 <= j <= 1000,
    ;
}

/// Lays out the starting scene, placing the cars and then the obstacles at
/// the given spawn points in order.
pub fn layout_scene(cfg: &Config, spawns: &Vec<SpawnPoint>) -> (r: Vec<Sprite>)
    requires
        cfg.wf(),
        spawns@.len() == cfg.car_count + cfg.obstacle_count,
    ensures
        r@.len() == scene_len(*cfg),
        forall|i: int| 0 <= i < r@.len() ==> #[trigger] r@[i] == scene_sprite(*cfg, i, spawn_for(*cfg, spawns@, i)),
{
    let mut r: Vec<Sprite> = Vec::new();
    r.push(Sprite { kind: SpriteKind::Player, slot: 0, x: cfg.player_start_x, y: 0 });
    let mut j: usize = 0;
    while j < cfg.road_line_count
        invariant
            cfg.wf(),
            j <= cfg.road_line_count,
            r@.len() == 1 + j,
            forall|i: int| 0 <= i < r@.len() ==> #[trigger] r@[i] == scene_sprite(*cfg, i, spawn_for(*cfg, spawns@, i)),
        decreases cfg.road_line_count - j,
    {
        proof {
            lemma_offset_fits(cfg.road_line_start_x, cfg.road_line_spacing, j as int);
        }
        let x = cfg.road_line_start_x + (j as i64) * cfg.road_line_spacing;
        r.push(Sprite { kind: SpriteKind::RoadLine, slot: j, x, y: 0 });
        j = j + 1;
    }
    let base = r.len();
    let mut j: usize = 0;
    while j < cfg.barrier_count
        invariant
            cfg.wf(),
            base == 1 + cfg.road_line_count,
            j <= cfg.barrier_count,
            r@.len() == base + j,
            forall|i: int| 0 <= i < r@.len() ==> #[trigger] r@[i] == scene_sprite(*cfg, i, spawn_for(*cfg, spawns@, i)),
        decreases cfg.barrier_count - j,
    {
        proof {
            lemma_offset_fits(cfg.min_x, cfg.barrier_spacing, j as int);
        }
        let x = cfg.min_x + (j as i64) * cfg.barrier_spacing;
        r.push(Sprite { kind: SpriteKind::Barrier, slot: j, x, y: cfg.max_y });
        j = j + 1;
    }
    let mut j: usize = 0;
    while j < cfg.barrier_count
        invariant
            cfg.wf(),
            base == 1 + cfg.road_line_count,
            j <= cfg.barrier_count,
            r@.len() == base + cfg.barrier_count + j,
            forall|i: int| 0 <= i < r@.len() ==> #[trigger] r@[i] == scene_sprite(*cfg, i, spawn_for(*cfg, spawns@, i)),
        decreases cfg.barrier_count - j,
    {
        proof {
            lemma_offset_fits(cfg.min_x, cfg.barrier_spacing, j as int);
        }
        let x = cfg.min_x + (j as i64) * cfg.barrier_spacing;
        r.push(Sprite { kind: SpriteKind::Barrier, slot: cfg.barrier_count + j, x, y: cfg.min_y });
        j = j + 1;
    }
    let mut k: usize = 0;
    while k < spawns.len()
        invariant
            cfg.wf(),
            spawns@.len() == cfg.car_count + cfg.obstacle_count,
            k <= spawns@.len(),
            r@.len() == fixed_count(*cfg) + k,
            forall|i: int| 0 <= i < r@.len() ==> #[trigger] r@[i] == scene_sprite(*cfg, i, spawn_for(*cfg, spawns@, i)),
        decreases spawns@.len() - k,
    {
        let p = spawns[k];
        if k < cfg.car_count {
            r.push(Sprite { kind: SpriteKind::Car, slot: k, x: p.x, y: p.y });
        } else {
            r.push(Sprite { kind: SpriteKind::Obstacle, slot: k - cfg.car_count, x: p.x, y: p.y });
        }
        k = k + 1;
    }
    r
}

/// Builds the starting scene, drawing a random spawn point for each car and
/// obstacle.
pub fn create_sprites(cfg: &Config) -> (r: Vec<Sprite>)
    requires
        cfg.wf(),
    ensures
        scene_outcome(*cfg, r@),
{
    let n = cfg.car_count + cfg.obstacle_count;
    let mut spawns: Vec<SpawnPoint> = Vec::new();
    while spawns.len() < n
        invariant
            cfg.wf(),
            n == cfg.car_count + cfg.obstacle_count,
            spawns@.len() <= n,
            forall|k: int| 0 <= k < spawns@.len() ==> in_spawn_band(*cfg, #[trigger] spawns@[k].x as int, spawns@[k].y as int),
        decreases n - spawns@.len(),
    {
        spawns.push(spawn_point(cfg));
    }
    let r = layout_scene(cfg, &spawns);
    assert forall|i: int| 0 <= i < r@.len() implies #[trigger] r@[i] == scene_sprite(*cfg, i, SpawnPoint { x: r@[i].x, y: r@[i].y }) by {
        assert(r@[i] == scene_sprite(*cfg, i, spawn_for(*cfg, spawns@, i)));
    }
    assert forall|i: int| fixed_count(*cfg) <= i < r@.len() implies in_spawn_band(*cfg, #[trigger] r@[i].x as int, r@[i].y as int) by {
        assert(r@[i] == scene_sprite(*cfg, i, spawn_for(*cfg, spawns@, i)));
        let k = i - fixed_count(*cfg);
        assert(in_spawn_band(*cfg, spawns@[k].x as int, spawns@[k].y as int));
    }
    r
}

/// The state a session starts in: the configured health, not lost.
pub fn start_state(cfg: &Config) -> (r: GameState)
    ensures
        r.wf(),
        r.health == cfg.start_health,
{
    GameState::new(cfg.start_health)
}

} // verus!
