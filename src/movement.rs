use vstd::prelude::*;
use crate::config::Config;
use crate::draw::spawn_point;
use crate::sprite::{SpawnPoint, Sprite, SpriteKind, in_spawn_band, recycles, wraps};
use crate::state::{GameEvent, GameState, after};

verus! {

/// The movement keys held during a frame: "up" (Up or W) and "down" (Down or S).
#[derive(Clone, Copy, Debug, PartialEq, Eq, Structural)]
pub struct Keys {
    pub up: bool,
    pub down: bool,
}

/// +1 for up alone, -1 for down alone, 0 for both or neither.
pub open spec fn direction_of(keys: Keys) -> int {
    (if keys.up { 1int } else { 0int }) - (if keys.down { 1int } else { 0int })
}

/// The player's y after a frame of `dt` milliseconds.
pub open spec fn moved_y(cfg: Config, y: int, keys: Keys, dt: u32) -> int {
    y + direction_of(keys) * cfg.player_speed * dt
}

/// The y lies inside the vertical play field, edges included.
pub open spec fn in_field_y(cfg: Config, y: int) -> bool {
    cfg.min_y <= y <= cfg.max_y
}

/// The state after the player's move to `y`: lost with zero health when `y`
/// leaves the field, unchanged otherwise.
pub open spec fn after_move(cfg: Config, s: GameState, y: int) -> GameState {
    if in_field_y(cfg, y) { s } else { after(s, GameEvent::LeftField) }
}

/// The net vertical direction of the held keys; it also gives the player's tilt.
pub fn direction(keys: Keys) -> (r: i8)
    ensures
        r == direction_of(keys),
{
    let mut d: i8 = 0;
    if keys.up {
        d = d + 1;
    }
    if keys.down {
        d = d - 1;
    }
    d
}

proof fn lemma_product_bound(a: u32, b: u32)
    ensures
        0 <= (a as int) * (b as int) <= 0xFFFF_FFFF * 0xFFFF_FFFF,
{
    assert(0 <= (a as int) * (b as int) <= 0xFFFF_FFFF * 0xFFFF_FFFF) by (nonlinear_arith)
        requires
            0 <= a <= 0xFFFF_FFFF,
            0 <= b <= 0xFFFF_FFFF,
    ;
}

/// Moves the player vertically by `player_speed * dt` in the held direction,
/// and returns the direction as its tilt. Leaving the vertical play field
/// drops health to zero.
pub fn player_movement(
    cfg: &Config,
    player: &mut Sprite,
    state: &mut GameState,
    keys: Keys,
    dt: u32,
) -> (tilt: i8)
    requires
        i64::MIN <= moved_y(*cfg, old(player).y as int, keys, dt) <= i64::MAX,
    ensures
        tilt == direction_of(keys),
        final(player).y == moved_y(*cfg, old(player).y as int, keys, dt),
        final(player).x == old(player).x,
        final(player).kind == old(player).kind,
        final(player).slot == old(player).slot,
        *final(state) == after_move(*cfg, *old(state), final(player).y as int),
{
    let d = direction(keys);
    proof {
        lemma_product_bound(cfg.player_speed, dt);
    }
    let step: i128 = (cfg.player_speed as i128) * (dt as i128);
    let y: i128 = player.y as i128 + (d as i128) * step;
    assert(y == moved_y(*cfg, player.y as int, keys, dt)) by (nonlinear_arith)
        requires
            y == player.y + d * step,
            step == cfg.player_speed * dt,
            d == direction_of(keys),
    ;
    player.y = y as i64;
    if player.y < cfg.min_y || player.y > cfg.max_y {
        *state = state.transition(GameEvent::LeftField);
    }
    d
}

/// Whether the player's move for this frame stays within `i64`, as
/// `player_movement` requires.
pub fn move_fits(cfg: &Config, y: i64, keys: Keys, dt: u32) -> (r: bool)
    ensures
        r == (i64::MIN <= moved_y(*cfg, y as int, keys, dt) <= i64::MAX),
{
    let d = direction(keys);
    proof {
        lemma_product_bound(cfg.player_speed, dt);
    }
    let step: i128 = (cfg.player_speed as i128) * (dt as i128);
    let ny: i128 = y as i128 + (d as i128) * step;
    assert(ny == moved_y(*cfg, y as int, keys, dt)) by (nonlinear_arith)
        requires
            ny == y + d * step,
            step == cfg.player_speed * dt,
            d == direction_of(keys),
    ;
    i64::MIN as i128 <= ny && ny <= i64::MAX as i128
}

/// Speed at which a sprite of kind `k` scrolls left; the player does not scroll.
pub open spec fn scroll_speed(cfg: Config, k: SpriteKind) -> int {
    match k {
        SpriteKind::Player => 0,
        SpriteKind::Car => cfg.car_speed as int,
        _ => cfg.road_speed as int,
    }
}

/// The sprite's x after scrolling for `dt` milliseconds, before any wrap or recycling.
pub open spec fn shifted_x(cfg: Config, s: Sprite, dt: u32) -> int {
    s.x - scroll_speed(cfg, s.kind) * dt
}

/// A road line's or barrier's x after scrolling: when it passes `min_x` it
/// moves right by twice `max_x`.
pub open spec fn wrapped_x(cfg: Config, s: Sprite, dt: u32) -> int {
    let nx = shifted_x(cfg, s, dt);
    if nx < cfg.min_x { nx + 2 * cfg.max_x } else { nx }
}

/// A car or obstacle passes the recycle line during this frame.
pub open spec fn respawns(cfg: Config, s: Sprite, dt: u32) -> bool {
    recycles(s.kind) && shifted_x(cfg, s, dt) < cfg.recycle_x()
}

/// The sprite after scrolling, where a recycled one is placed at `spawn`.
pub open spec fn scrolled_with(cfg: Config, s: Sprite, dt: u32, spawn: SpawnPoint) -> Sprite {
    if wraps(s.kind) {
        Sprite { x: wrapped_x(cfg, s, dt) as i64, ..s }
    } else if respawns(cfg, s, dt) {
        Sprite { x: spawn.x, y: spawn.y, ..s }
    } else if recycles(s.kind) {
        Sprite { x: shifted_x(cfg, s, dt) as i64, ..s }
    } else {
        s
    }
}

/// What may come of scrolling `s`: a recycled sprite keeps its kind and slot
/// and lands anywhere in the spawn band; any other sprite moves exactly.
pub open spec fn scroll_outcome(cfg: Config, s: Sprite, dt: u32, r: Sprite) -> bool {
    if respawns(cfg, s, dt) {
        &&& r.kind == s.kind
        &&& r.slot == s.slot
        &&& in_spawn_band(cfg, r.x as int, r.y as int)
    } else {
        r == scrolled_with(cfg, s, dt, SpawnPoint { x: 0, y: 0 })
    }
}

/// Scrolling stays within `i64`; only a wrapped position can leave it.
pub open spec fn scroll_fits(cfg: Config, s: Sprite, dt: u32) -> bool {
    wraps(s.kind) ==> i64::MIN <= wrapped_x(cfg, s, dt)
}

/// Whether scrolling `s` stays within `i64`, as the scrolling functions require.
pub fn can_scroll(cfg: &Config, s: Sprite, dt: u32) -> (r: bool)
    ensures
        r == scroll_fits(*cfg, s, dt),
{
    if s.kind.is_wrapping() {
        proof {
            lemma_product_bound(cfg.road_speed, dt);
        }
        let nx: i128 = s.x as i128 - (cfg.road_speed as i128) * (dt as i128);
        let x: i128 = if nx < cfg.min_x as i128 { nx + 2 * (cfg.max_x as i128) } else { nx };
        i64::MIN as i128 <= x
    } else {
        true
    }
}

/// Scrolls one sprite for `dt` milliseconds, placing it at `spawn` if it is
/// a car or obstacle that passes the recycle line.
pub fn scroll_sprite_with(cfg: &Config, s: Sprite, dt: u32, spawn: SpawnPoint) -> (r: Sprite)
    requires
        cfg.wf(),
        scroll_fits(*cfg, s, dt),
    ensures
        r == scrolled_with(*cfg, s, dt, spawn),
{
    let speed: u32 = match s.kind {
        SpriteKind::Player => 0,
        SpriteKind::Car => cfg.car_speed,
        _ => cfg.road_speed,
    };
    proof {
        lemma_product_bound(speed, dt);
    }
    let nx: i128 = s.x as i128 - (speed as i128) * (dt as i128);
    assert(nx == shifted_x(*cfg, s, dt));
    if s.kind.is_wrapping() {
        let x: i128 = if nx < cfg.min_x as i128 { nx + 2 * (cfg.max_x as i128) } else { nx };
        Sprite { x: x as i64, ..s }
    } else if s.kind.is_recycled() {
        if nx < cfg.min_x as i128 - cfg.recycle_margin_x as i128 {
            Sprite { x: spawn.x, y: spawn.y, ..s }
        } else {
            Sprite { x: nx as i64, ..s }
        }
    } else {
        s
    }
}

/// Scrolls one sprite for `dt` milliseconds, drawing a random spawn point
/// when a car or obstacle passes the recycle line.
pub fn scroll_sprite(cfg: &Config, s: Sprite, dt: u32) -> (r: Sprite)
    requires
        cfg.wf(),
        scroll_fits(*cfg, s, dt),
    ensures
        scroll_outcome(*cfg, s, dt, r),
{
    proof {
        lemma_product_bound(cfg.car_speed, dt);
        lemma_product_bound(cfg.road_speed, dt);
    }
    let speed: i128 = if s.kind == SpriteKind::Car { cfg.car_speed as i128 } else { cfg.road_speed as i128 };
    let nx: i128 = s.x as i128 - speed * (dt as i128);
    if s.kind.is_recycled() && nx < cfg.min_x as i128 - cfg.recycle_margin_x as i128 {
        let spawn = spawn_point(cfg);
        scroll_sprite_with(cfg, s, dt, spawn)
    } else {
        scroll_sprite_with(cfg, s, dt, SpawnPoint { x: 0, y: 0 })
    }
}

/// Scrolls every sprite of the scene for `dt` milliseconds.
pub fn road_movement(cfg: &Config, sprites: &mut Vec<Sprite>, dt: u32)
    requires
        cfg.wf(),
        forall|i: int| 0 <= i < old(sprites)@.len() ==> scroll_fits(*cfg, #[trigger] old(sprites)@[i], dt),
    ensures
        final(sprites)@.len() == old(sprites)@.len(),
        forall|i: int|
            0 <= i < old(sprites)@.len() ==> scroll_outcome(*cfg, #[trigger] old(sprites)@[i], dt, final(sprites)@[i]),
{
    let n = sprites.len();
    let mut i: usize = 0;
    while i < n
        invariant
            cfg.wf(),
            n == old(sprites)@.len(),
            sprites@.len() == n,
            0 <= i <= n,
            forall|j: int| i <= j < n ==> sprites@[j] == old(sprites)@[j],
            forall|j: int| 0 <= j < n ==> scroll_fits(*cfg, #[trigger] old(sprites)@[j], dt),
            forall|j: int| 0 <= j < i ==> scroll_outcome(*cfg, #[trigger] old(sprites)@[j], dt, sprites@[j]),
        decreases n - i,
    {
        let s = scroll_sprite(cfg, sprites[i], dt);
        sprites.set(i, s);
        i = i + 1;
    }
}

/// Holding only "up" moves the player up by exactly `player_speed * dt`,
/// only "down" moves it down by as much, and both or neither leave it in place.
pub proof fn law_player_step(cfg: Config, y: int, keys: Keys, dt: u32)
    ensures
        keys.up && !keys.down ==> moved_y(cfg, y, keys, dt) == y + cfg.player_speed * dt,
        !keys.up && keys.down ==> moved_y(cfg, y, keys, dt) == y - cfg.player_speed * dt,
        keys.up == keys.down ==> moved_y(cfg, y, keys, dt) == y,
{
    let a = cfg.player_speed as int;
    let b = dt as int;
    assert((-1int) * a * b == -(a * b)) by (nonlinear_arith);
    assert(0int * a * b == 0) by (nonlinear_arith);
    assert(1int * a * b == a * b) by (nonlinear_arith);
}

/// A move that ends outside `[min_y, max_y]` leaves zero health, whatever
/// the health was before, and loses the session.
pub proof fn law_leaving_field_loses(cfg: Config, s: GameState, y: int)
    requires
        !in_field_y(cfg, y),
    ensures
        after_move(cfg, s, y).health == 0,
        after_move(cfg, s, y).lost,
{
}

/// A road line or barrier that scrolls past `min_x` moves right by exactly
/// twice `max_x`, and lands at or right of `min_x` when it went no further
/// left than `min_x - 2 * max_x`.
pub proof fn law_road_wrap(cfg: Config, s: Sprite, dt: u32)
    requires
        cfg.wf(),
        wraps(s.kind),
        shifted_x(cfg, s, dt) < cfg.min_x,
        scroll_fits(cfg, s, dt),
    ensures
        scrolled_with(cfg, s, dt, SpawnPoint { x: 0, y: 0 }).x == shifted_x(cfg, s, dt) + 2
            * cfg.max_x,
        shifted_x(cfg, s, dt) >= cfg.min_x - 2 * cfg.max_x ==> scrolled_with(
            cfg,
            s,
            dt,
            SpawnPoint { x: 0, y: 0 },
        ).x >= cfg.min_x,
{
}

/// A car or obstacle that passes the recycle line reappears inside the
/// spawn band, keeping its kind and slot.
pub proof fn law_recycle_in_band(cfg: Config, s: Sprite, dt: u32, r: Sprite)
    requires
        recycles(s.kind),
        shifted_x(cfg, s, dt) < cfg.recycle_x(),
        scroll_outcome(cfg, s, dt, r),
    ensures
        cfg.spawn_min_x <= r.x < cfg.spawn_max_x,
        cfg.spawn_min_y() <= r.y < cfg.spawn_max_y(),
        r.kind == s.kind && r.slot == s.slot,
{
}

} // verus!
