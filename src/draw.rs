use vstd::prelude::*;
use rand::Rng;
use crate::config::Config;
use crate::sprite::{SpawnPoint, in_spawn_band};

verus! {

/// Relies on rand's `thread_rng().gen_range(lo..hi)`: a value of the
/// half-open range, which must not be empty (it panics on an empty one).
#[verifier::external_body]
fn random_in(lo: i64, hi: i64) -> (r: i64)
    requires
        lo < hi,
    ensures
        lo <= r < hi,
{
    rand::thread_rng().gen_range(lo..hi)
}

/// A random spawn point for a car or obstacle, inside the spawn band.
pub fn spawn_point(cfg: &Config) -> (r: SpawnPoint)
    requires
        cfg.wf(),
    ensures
        in_spawn_band(*cfg, r.x as int, r.y as int),
{
    let x = random_in(cfg.spawn_min_x, cfg.spawn_max_x);
    let y = random_in(cfg.min_y + cfg.spawn_margin_y, cfg.max_y - cfg.spawn_margin_y);
    SpawnPoint { x, y }
}

} // verus!
