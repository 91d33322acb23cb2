use road_racer::config::Config;
use road_racer::movement::{can_scroll, direction, move_fits, player_movement, road_movement, scroll_sprite, scroll_sprite_with, Keys};
use road_racer::sprite::{SpawnPoint, Sprite, SpriteKind};
use road_racer::state::GameState;

fn sprite(kind: SpriteKind, x: i64, y: i64) -> Sprite {
    Sprite { kind, slot: 0, x, y }
}

fn in_band(cfg: &Config, s: &Sprite) -> bool {
    cfg.spawn_min_x <= s.x
        && s.x < cfg.spawn_max_x
        && cfg.min_y + cfg.spawn_margin_y <= s.y
        && s.y < cfg.max_y - cfg.spawn_margin_y
}

fn move_player(y: i64, up: bool, down: bool, dt: u32, health: u8) -> (Sprite, GameState, i8) {
    let cfg = Config::standard();
    let mut p = sprite(SpriteKind::Player, -500_000, y);
    let mut s = GameState::new(health);
    let tilt = player_movement(&cfg, &mut p, &mut s, Keys { up, down }, dt);
    (p, s, tilt)
}

#[test]
fn standard_config_values() {
    let c = Config::standard();
    assert_eq!((c.min_x, c.max_x, c.min_y, c.max_y), (-675_000, 675_000, -360_000, 360_000));
    assert_eq!((c.spawn_min_x, c.spawn_max_x), (700_000, 1_800_000));
    assert_eq!((c.player_speed, c.road_speed, c.car_speed), (300, 900, 250));
}

#[test]
fn direction_of_keys() {
    assert_eq!(direction(Keys { up: true, down: false }), 1);
    assert_eq!(direction(Keys { up: false, down: true }), -1);
    assert_eq!(direction(Keys { up: true, down: true }), 0);
    assert_eq!(direction(Keys { up: false, down: false }), 0);
}

#[test]
fn player_moves_by_speed_times_dt() {
    let (p, s, tilt) = move_player(0, true, false, 10, 5);
    assert_eq!((p.x, p.y, tilt), (-500_000, 3_000, 1));
    assert_eq!(s, GameState::new(5));
    let (p, _, tilt) = move_player(1_000, false, true, 16, 5);
    assert_eq!((p.y, tilt), (1_000 - 4_800, -1));
    let (p, _, tilt) = move_player(1_000, true, true, 16, 5);
    assert_eq!((p.y, tilt), (1_000, 0));
    let (p, _, tilt) = move_player(1_000, false, false, 16, 5);
    assert_eq!((p.y, tilt), (1_000, 0));
    let (p, _, _) = move_player(1_000, true, false, 0, 5);
    assert_eq!(p.y, 1_000);
}

#[test]
fn player_on_the_edge_keeps_health() {
    let (p, s, _) = move_player(357_000, true, false, 10, 5);
    assert_eq!(p.y, 360_000);
    assert_eq!(s, GameState::new(5));
    let (p, s, _) = move_player(-357_000, false, true, 10, 4);
    assert_eq!(p.y, -360_000);
    assert_eq!(s.health, 4);
}

#[test]
fn player_leaving_field_loses_all_health() {
    let (p, s, _) = move_player(359_000, true, false, 10, 5);
    assert_eq!(p.y, 362_000);
    assert_eq!(s, GameState { health: 0, lost: true });
    let (_, s, _) = move_player(-359_000, false, true, 10, 2);
    assert_eq!(s, GameState { health: 0, lost: true });
}

#[test]
fn road_line_scrolls_without_wrap() {
    let cfg = Config::standard();
    let r = scroll_sprite(&cfg, sprite(SpriteKind::RoadLine, 0, 0), 10);
    assert_eq!(r, sprite(SpriteKind::RoadLine, -9_000, 0));
    let r = scroll_sprite(&cfg, sprite(SpriteKind::Barrier, -666_000, 360_000), 10);
    assert_eq!(r, sprite(SpriteKind::Barrier, -675_000, 360_000));
}

#[test]
fn road_line_wraps_by_twice_max_x() {
    let cfg = Config::standard();
    let r = scroll_sprite(&cfg, sprite(SpriteKind::RoadLine, -670_000, 0), 10);
    assert_eq!(r.x, -679_000 + 1_350_000);
    assert!(r.x >= cfg.min_x);
    let r = scroll_sprite(&cfg, sprite(SpriteKind::Barrier, -670_000, -360_000), 10);
    assert_eq!(r, sprite(SpriteKind::Barrier, 671_000, -360_000));
}

#[test]
fn road_line_below_min_x_wraps_into_field() {
    let cfg = Config::standard();
    let r = scroll_sprite(&cfg, sprite(SpriteKind::RoadLine, -680_000, 0), 16);
    assert_eq!(r.x, -680_000 - 14_400 + 1_350_000);
    assert!(r.x >= -675_000);
}

#[test]
fn road_line_far_left_stays_left_after_wrap() {
    let cfg = Config::standard();
    let r = scroll_sprite(&cfg, sprite(SpriteKind::RoadLine, -675_000, 0), 2_000);
    assert_eq!(r.x, -2_475_000 + 1_350_000);
    assert!(r.x < cfg.min_x);
}

#[test]
fn car_and_obstacle_scroll_at_own_speeds() {
    let cfg = Config::standard();
    let r = scroll_sprite(&cfg, sprite(SpriteKind::Car, 0, 5), 10);
    assert_eq!(r, sprite(SpriteKind::Car, -2_500, 5));
    let r = scroll_sprite(&cfg, sprite(SpriteKind::Obstacle, 0, 5), 10);
    assert_eq!(r, sprite(SpriteKind::Obstacle, -9_000, 5));
    let r = scroll_sprite(&cfg, sprite(SpriteKind::Car, -872_500, 5), 10);
    assert_eq!(r, sprite(SpriteKind::Car, -875_000, 5));
}

#[test]
fn player_is_not_scrolled() {
    let cfg = Config::standard();
    let p = sprite(SpriteKind::Player, -500_000, 7);
    assert_eq!(scroll_sprite(&cfg, p, 100), p);
}

#[test]
fn recycled_car_lands_in_spawn_band() {
    let cfg = Config::standard();
    for _ in 0..100 {
        let s = Sprite { kind: SpriteKind::Car, slot: 3, x: -874_000, y: 0 };
        let r = scroll_sprite(&cfg, s, 10);
        assert_eq!((r.kind, r.slot), (SpriteKind::Car, 3));
        assert!(in_band(&cfg, &r));
        let o = Sprite { kind: SpriteKind::Obstacle, slot: 1, x: -870_000, y: 0 };
        let r = scroll_sprite(&cfg, o, 10);
        assert_eq!((r.kind, r.slot), (SpriteKind::Obstacle, 1));
        assert!(in_band(&cfg, &r));
    }
}

#[test]
fn recycled_positions_vary() {
    let cfg = Config::standard();
    let s = sprite(SpriteKind::Car, -900_000, 0);
    let first = scroll_sprite(&cfg, s, 10);
    let mut differs = false;
    for _ in 0..200 {
        let r = scroll_sprite(&cfg, s, 10);
        if r.x != first.x || r.y != first.y {
            differs = true;
        }
    }
    assert!(differs);
}

#[test]
fn recycle_with_given_spawn() {
    let cfg = Config::standard();
    let spawn = SpawnPoint { x: 1_000_000, y: -100_000 };
    let r = scroll_sprite_with(&cfg, sprite(SpriteKind::Obstacle, -870_000, 0), 10, spawn);
    assert_eq!(r, sprite(SpriteKind::Obstacle, 1_000_000, -100_000));
    let r = scroll_sprite_with(&cfg, sprite(SpriteKind::Car, 0, 0), 10, spawn);
    assert_eq!(r, sprite(SpriteKind::Car, -2_500, 0));
}

#[test]
fn road_movement_scrolls_every_sprite() {
    let cfg = Config::standard();
    let mut v = vec![
        sprite(SpriteKind::Player, -500_000, 0),
        sprite(SpriteKind::RoadLine, -670_000, 0),
        sprite(SpriteKind::Car, 100_000, 20_000),
        sprite(SpriteKind::Obstacle, -880_000, 0),
    ];
    road_movement(&cfg, &mut v, 10);
    assert_eq!(v.len(), 4);
    assert_eq!(v[0], sprite(SpriteKind::Player, -500_000, 0));
    assert_eq!(v[1], sprite(SpriteKind::RoadLine, 671_000, 0));
    assert_eq!(v[2], sprite(SpriteKind::Car, 97_500, 20_000));
    assert_eq!(v[3].kind, SpriteKind::Obstacle);
    assert!(in_band(&cfg, &v[3]));
}

#[test]
fn move_fits_detects_overflow() {
    let cfg = Config::standard();
    assert!(move_fits(&cfg, 0, Keys { up: true, down: false }, 10));
    assert!(!move_fits(&cfg, i64::MAX - 10, Keys { up: true, down: false }, 10));
    assert!(move_fits(&cfg, i64::MAX - 10, Keys { up: false, down: true }, 10));
    assert!(!move_fits(&cfg, i64::MIN + 10, Keys { up: false, down: true }, 10));
}

#[test]
fn can_scroll_detects_overflow() {
    let cfg = Config::standard();
    assert!(can_scroll(&cfg, sprite(SpriteKind::RoadLine, 0, 0), 10));
    assert!(can_scroll(&cfg, sprite(SpriteKind::RoadLine, i64::MIN + 10, 0), 10));
    assert!(!can_scroll(&cfg, sprite(SpriteKind::RoadLine, i64::MIN + 10, 0), 2_000));
    assert!(can_scroll(&cfg, sprite(SpriteKind::Car, i64::MIN + 10, 0), 10));
}
