use platformer::camera::{camera_follow, CameraBounds};
use platformer::enemy::EnemyState;
use platformer::enums::{Animation, AnimationType, Direction, TextureKey};
use platformer::geometry::{vec2i, Rect};
use platformer::level::{Level, LevelData, Trigger};
use platformer::mapper::{level_map_from_image, tile_from_rgba, MapPixel, MapTextures, MapTile};
use platformer::matrix::Matrix;
use platformer::player::{Player, PlayerPowerUp};
use platformer::scores::{LevelScore, PersistentLevelData, MAX_SCORES};

fn textures() -> MapTextures {
    MapTextures {
        platform: TextureKey::Platform0,
        coin: TextureKey::Coin0,
        enemy: TextureKey::Enemy0,
        cannon: TextureKey::Cannon0,
        projectile: TextureKey::Projectile0,
        power_ups: TextureKey::PowerUps0,
    }
}

fn px(row: i32, col: i32, r: u8, g: u8, b: u8, a: u8) -> MapPixel {
    MapPixel { row, col, r, g, b, a }
}

#[test]
fn colour_table() {
    assert_eq!(tile_from_rgba(92, 0, 255, 255), MapTile::Player);
    assert_eq!(tile_from_rgba(255, 0, 17, 255), MapTile::Platform { variant: 0 });
    assert_eq!(tile_from_rgba(247, 0, 0, 255), MapTile::Platform { variant: 8 });
    assert_eq!(tile_from_rgba(246, 0, 0, 255), MapTile::Empty);
    assert_eq!(
        tile_from_rgba(246, 20, 5, 235),
        MapTile::Cannon { direction: Direction::Left, interval_ms: 2000, offset_ms: 500, damage: -40 }
    );
    assert_eq!(
        tile_from_rgba(0, 1, 0, 1),
        MapTile::Cannon { direction: Direction::Down, interval_ms: 100, offset_ms: 0, damage: -508 }
    );
    assert_eq!(tile_from_rgba(245, 255, 0, 255), MapTile::Coin);
    assert_eq!(tile_from_rgba(244, 120, 0, 30), MapTile::PowerUp { kind: PlayerPowerUp::Coins2x, duration_ms: 30000 });
    assert_eq!(tile_from_rgba(80, 255, 255, 10), MapTile::PowerUp { kind: PlayerPowerUp::JumpBoost, duration_ms: 10000 });
    assert_eq!(tile_from_rgba(241, 120, 100, 205), MapTile::Enemy { damage: -100 });
    assert_eq!(tile_from_rgba(92, 0, 255, 0), MapTile::Empty);
    assert_eq!(tile_from_rgba(1, 2, 3, 4), MapTile::Empty);
}

#[test]
fn map_places_entities_on_the_tile_grid() {
    let pixels = vec![
        px(-3, 0, 255, 0, 0, 255),
        px(-2, -1, 92, 0, 255, 255),
        px(-1, -1, 241, 120, 100, 255),
        px(0, -2, 245, 255, 0, 255),
        px(0, -1, 200, 10, 0, 255),
        px(0, 0, 243, 0, 255, 5),
        px(0, -3, 0, 0, 0, 0),
    ];
    let layout = level_map_from_image(&pixels, vec2i(64, 64), textures(), 1000, 1000);
    assert_eq!(layout.platforms.len(), 1);
    assert_eq!(layout.platforms[0].collider_new.rect, Rect::new(-192, 0, 64, 64));
    assert_eq!(layout.player, Player::new(62, 62, vec2i(-128, -64), 1));
    assert_eq!(layout.enemies.len(), 1);
    assert_eq!(layout.enemies[0].pos, vec2i(-64, -64));
    assert_eq!(layout.enemies[0].damage, 0);
    assert_eq!(layout.enemies[0].size, vec2i(62, 62));
    assert_eq!(layout.enemies[0].state, EnemyState::Idling);
    assert_eq!(layout.collectibles.len(), 1);
    assert_eq!(layout.collectibles[0].collider.rect, Rect::new(0, -128, 64, 64));
    assert_eq!(layout.cannons.len(), 1);
    assert_eq!(layout.cannons[0].direction, Direction::Right);
    assert_eq!(layout.cannons[0].speed, 1000);
    assert_eq!(layout.cannons[0].last_shoot, 1000);
    assert_eq!(layout.cannons[0].projectile_speed, 1000);
    assert_eq!(layout.power_ups.len(), 1);
    assert_eq!(layout.power_ups[0].duration, 5000);
    assert_eq!(layout.power_ups[0].power_up, PlayerPowerUp::SpeedBoost);
}

#[test]
fn map_without_player_pixel() {
    let layout = level_map_from_image(&Vec::new(), vec2i(64, 64), textures(), 0, 1000);
    assert_eq!(layout.player, Player::new(0, 0, vec2i(0, 0), 0));
    assert!(layout.platforms.is_empty() && layout.enemies.is_empty());
}

#[test]
fn scores_record_plays_and_cap_history() {
    let mut data = PersistentLevelData::new();
    let s = LevelScore::new(5, 100, 1, 2, 3, 4);
    data.record(Level::Level1, 1, s);
    data.record(Level::Level1, 0, s);
    data.record(Level::Level2, 0, s);
    assert_eq!(data.stats.len(), 2);
    assert_eq!(data.stats[0].plays, 2);
    assert_eq!(data.stats[0].deaths, 1);
    assert_eq!(data.scores[0].entries.len(), 2);
    assert_eq!(data.scores[1].level, Level::Level2);
    for i in 0..(MAX_SCORES as u64) {
        data.record(Level::Level2, 0, LevelScore::new(i, 0, 0, 0, 0, 0));
    }
    assert_eq!(data.scores[1].entries.len(), MAX_SCORES + 1);
    data.record(Level::Level2, 0, LevelScore::new(77777, 0, 0, 0, 0, 0));
    assert_eq!(data.scores[1].entries.len(), MAX_SCORES + 1);
    assert_eq!(data.scores[1].entries[0].time, 0);
    assert_eq!(data.scores[1].entries[MAX_SCORES].time, 77777);
}

#[test]
fn level_save_counts_death_and_playtime() {
    let player = Player::new(64, 64, vec2i(0, 0), 0);
    let mut level = LevelData::new(Level::Level0, player, Vec::new(), Vec::new(), Vec::new(), Vec::new(), Vec::new(), 1000);
    level.player.coins = 7;
    level.insert_trigger(Trigger::GameOver, true);
    let mut data = PersistentLevelData::new();
    level.save(&mut data, 4500, 123);
    assert_eq!(data.stats[0].deaths, 1);
    assert_eq!(data.stats[0].plays, 1);
    let s = data.scores[0].entries[0];
    assert_eq!(s.playtime, 3500);
    assert_eq!(s.coins, 7);
    assert_eq!(s.time, 123);
}

#[test]
fn animation_cycles_frames() {
    let mut a = Animation::new(AnimationType::Cycle(3, 5, 100), 0);
    a.animate(50);
    assert_eq!(a.index, 3);
    a.animate(100);
    assert_eq!(a.index, 3);
    a.animate(101);
    assert_eq!(a.index, 4);
    a.animate(202);
    assert_eq!(a.index, 5);
    a.animate(303);
    assert_eq!(a.index, 3);
    assert_eq!(a.last_time, 303);
}

#[test]
fn matrix_bounds_span_keys() {
    let mut m: Matrix<u8> = Matrix::new();
    assert_eq!(m.bounds(), [vec2i(0, 0), vec2i(0, 0)]);
    m.insert(-4, 2, 1);
    m.insert(3, -3, 1);
    m.insert(1, 1, 1);
    assert_eq!(m.bounds(), [vec2i(-4, -3), vec2i(3, 2)]);
}

#[test]
fn camera_follows_left_and_up() {
    let screen = vec2i(800, 800);
    let bounds = CameraBounds { left: vec2i(0, 0), right: vec2i(600, 0), top: vec2i(0, 0), bottom: vec2i(0, 700) };
    // near the left bound, walking left; near the top
    let f = camera_follow(vec2i(150, 50), vec2i(64, 64), bounds, screen, 1);
    assert_eq!(f.bounds.left, vec2i(-50, -686));
    assert_eq!(f.bounds.right, vec2i(550, -686));
    assert_eq!(f.bounds.top, vec2i(150, -50));
    assert_eq!(f.bounds.bottom, vec2i(150, 650));
    assert_eq!(f.display, Some(Rect { x: -50, y: 750, w: 800, h: -800 }));
    // in the middle nothing moves
    let g = camera_follow(vec2i(300, 300), vec2i(64, 64), bounds, screen, 0);
    assert_eq!(g.bounds, bounds);
    assert_eq!(g.display, None);
    // near the right bound, walking right
    let h = camera_follow(vec2i(540, 300), vec2i(64, 64), bounds, screen, 2);
    assert_eq!(h.bounds.left, vec2i(4, -436));
    assert_eq!(h.bounds.right, vec2i(604, -436));
    assert_eq!(h.display, Some(Rect { x: 4, y: 800, w: 800, h: -800 }));
}
