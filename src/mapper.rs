use vstd::prelude::*;
use crate::geometry::{Vec2i, vec2i, clamp_i32, scaled, scaled_spec};
use crate::collider::{Collider, ColliderType};
use crate::enums::{Direction, TextureKey};
use crate::player::{Player, PlayerPowerUp};
use crate::enemy::{Enemy, EnemyState, MAX_ENEMY_SIZE};
use crate::cannon::Cannon;
use crate::level::{Collectible, CollectibleType, Platform, PowerUp};

verus! {

/// Speed of cannon shots placed by a level map, pixels per second at scale 1.
pub const MAP_SHOT_SPEED: u16 = 1000;

/// How long cannon shots placed by a level map fly, in milliseconds.
pub const MAP_SHOT_TIME_MS: u64 = 10000;

/// One pixel of a level map. Cell `(row, col)` lies at `(row, col)` tiles from the
/// origin; `(0, 0)` is the bottom-right pixel and the others have negative indices.
#[derive(Clone, Copy, Debug, PartialEq, Eq, Structural)]
pub struct MapPixel {
    pub row: i32,
    pub col: i32,
    pub r: u8,
    pub g: u8,
    pub b: u8,
    pub a: u8,
}

/// What a pixel colour stands for.
///
/// | colour (r, g, b, a) | tile |
/// |---|---|
/// | any with a = 0 | nothing |
/// | (92, 0, 255, 255) | the player |
/// | (247..=255, 0, any, 255) | a platform drawn with tile 255 - r |
/// | (246 / 200 / 100 / 0, 1..=255, any, 1..=255) | a cannon facing left / right / up / down, firing every g tenths of a second after b tenths, shots changing health by (255 - a) * -2 |
/// | (245, 255, 0, 255) | a coin |
/// | (244, 120, 0, a) | double coins for a seconds |
/// | (243, 0, 255, a) | speed boost for a seconds |
/// | (242, 255, 100, a) | damage boost for a seconds |
/// | (80, 255, 255, a) | jump boost for a seconds |
/// | (241, 120, 100, a) | an enemy whose touch changes health by (255 - a) * -2 |
#[derive(Clone, Copy, Debug, PartialEq, Eq, Structural)]
pub enum MapTile {
    Empty,
    Player,
    Platform { variant: u8 },
    Cannon { direction: Direction, interval_ms: u64, offset_ms: u64, damage: i16 },
    Coin,
    PowerUp { kind: PlayerPowerUp, duration_ms: u64 },
    Enemy { damage: i16 },
}

/// Textures given to what a level map places.
#[derive(Clone, Copy, Debug, PartialEq, Eq, Structural)]
pub struct MapTextures {
    pub platform: TextureKey,
    pub coin: TextureKey,
    pub enemy: TextureKey,
    pub cannon: TextureKey,
    pub projectile: TextureKey,
    pub power_ups: TextureKey,
}

/// Everything a level map places.
#[derive(Clone, Debug)]
pub struct LevelLayout {
    pub player: Player,
    pub platforms: Vec<Platform>,
    pub collectibles: Vec<Collectible>,
    pub enemies: Vec<Enemy>,
    pub cannons: Vec<Cannon>,
    pub power_ups: Vec<PowerUp>,
}

/// Health change encoded in an alpha value: `(255 - a) * -2`.
pub open spec fn alpha_damage(a: u8) -> i16 {
    ((255 - a) * -2) as i16
}

/// The table of [`MapTile`].
pub open spec fn tile_spec(r: u8, g: u8, b: u8, a: u8) -> MapTile {
    let cannon = |d: Direction|
        MapTile::Cannon {
            direction: d,
            interval_ms: (g * 100) as u64,
            offset_ms: (b * 100) as u64,
            damage: alpha_damage(a),
        };
    let boost = |k: PlayerPowerUp| MapTile::PowerUp { kind: k, duration_ms: (a * 1000) as u64 };
    if a == 0 {
        MapTile::Empty
    } else if r == 92 && g == 0 && b == 255 && a == 255 {
        MapTile::Player
    } else if r >= 247 && g == 0 && a == 255 {
        MapTile::Platform { variant: (255 - r) as u8 }
    } else if r == 246 && g >= 1 {
        cannon(Direction::Left)
    } else if r == 200 && g >= 1 {
        cannon(Direction::Right)
    } else if r == 100 && g >= 1 {
        cannon(Direction::Up)
    } else if r == 0 && g >= 1 {
        cannon(Direction::Down)
    } else if r == 245 && g == 255 && b == 0 && a == 255 {
        MapTile::Coin
    } else if r == 244 && g == 120 && b == 0 {
        boost(PlayerPowerUp::Coins2x)
    } else if r == 243 && g == 0 && b == 255 {
        boost(PlayerPowerUp::SpeedBoost)
    } else if r == 242 && g == 255 && b == 100 {
        boost(PlayerPowerUp::Damage2x)
    } else if r == 80 && g == 255 && b == 255 {
        boost(PlayerPowerUp::JumpBoost)
    } else if r == 241 && g == 120 && b == 100 {
        MapTile::Enemy { damage: alpha_damage(a) }
    } else {
        MapTile::Empty
    }
}

/// Reads a pixel colour as a tile, following the table of [`MapTile`].
pub fn tile_from_rgba(r: u8, g: u8, b: u8, a: u8) -> (t: MapTile)
    ensures
        t == tile_spec(r, g, b, a),
{
    let d: i16 = 255 - a as i16;
    let damage: i16 = -(d + d);
    let interval = g as u64 * 100;
    let offset = b as u64 * 100;
    let duration = a as u64 * 1000;
    if a == 0 {
        MapTile::Empty
    } else if r == 92 && g == 0 && b == 255 && a == 255 {
        MapTile::Player
    } else if r >= 247 && g == 0 && a == 255 {
        MapTile::Platform { variant: 255 - r }
    } else if r == 246 && g >= 1 {
        MapTile::Cannon { direction: Direction::Left, interval_ms: interval, offset_ms: offset, damage }
    } else if r == 200 && g >= 1 {
        MapTile::Cannon { direction: Direction::Right, interval_ms: interval, offset_ms: offset, damage }
    } else if r == 100 && g >= 1 {
        MapTile::Cannon { direction: Direction::Up, interval_ms: interval, offset_ms: offset, damage }
    } else if r == 0 && g >= 1 {
        MapTile::Cannon { direction: Direction::Down, interval_ms: interval, offset_ms: offset, damage }
    } else if r == 245 && g == 255 && b == 0 && a == 255 {
        MapTile::Coin
    } else if r == 244 && g == 120 && b == 0 {
        MapTile::PowerUp { kind: PlayerPowerUp::Coins2x, duration_ms: duration }
    } else if r == 243 && g == 0 && b == 255 {
        MapTile::PowerUp { kind: PlayerPowerUp::SpeedBoost, duration_ms: duration }
    } else if r == 242 && g == 255 && b == 100 {
        MapTile::PowerUp { kind: PlayerPowerUp::Damage2x, duration_ms: duration }
    } else if r == 80 && g == 255 && b == 255 {
        MapTile::PowerUp { kind: PlayerPowerUp::JumpBoost, duration_ms: duration }
    } else if r == 241 && g == 120 && b == 100 {
        MapTile::Enemy { damage }
    } else {
        MapTile::Empty
    }
}

/// The tile a pixel stands for.
pub open spec fn pixel_tile(p: MapPixel) -> MapTile {
    tile_spec(p.r, p.g, p.b, p.a)
}

/// World position of a pixel's tile.
pub open spec fn tile_pos(p: MapPixel, tile: Vec2i) -> Vec2i {
    Vec2i { x: clamp_i32(tile.x * p.row) as i32, y: clamp_i32(tile.y * p.col) as i32 }
}

/// The values `f` picks from `s`, in order.
pub open spec fn pick<A>(s: Seq<MapPixel>, f: spec_fn(MapPixel) -> Option<A>) -> Seq<A>
    decreases s.len(),
{
    if s.len() == 0 {
        Seq::empty()
    } else {
        let prev = pick(s.drop_last(), f);
        match f(s.last()) {
            Some(a) => prev.push(a),
            None => prev,
        }
    }
}

pub open spec fn platform_of(p: MapPixel, tile: Vec2i, tex: MapTextures) -> Option<Platform> {
    match pixel_tile(p) {
        MapTile::Platform { variant } => Some(
            Platform {
                collider_new: Collider::make(ColliderType::Solid, tile_pos(p, tile), tile.x, tile.y, Vec2i { x: 0, y: 0 }),
                texture_key: tex.platform,
                texture_index: variant,
            },
        ),
        _ => None,
    }
}

pub open spec fn coin_of(p: MapPixel, tile: Vec2i, tex: MapTextures) -> Option<Collectible> {
    match pixel_tile(p) {
        MapTile::Coin => Some(
            Collectible {
                collectible_type: CollectibleType::Coin,
                collected: false,
                collider: Collider::make(ColliderType::Collectible, tile_pos(p, tile), tile.x, tile.y, Vec2i { x: 0, y: 0 }),
                texture_key: tex.coin,
                size: tile,
            },
        ),
        _ => None,
    }
}

pub open spec fn power_up_of(p: MapPixel, tile: Vec2i, tex: MapTextures) -> Option<PowerUp> {
    match pixel_tile(p) {
        MapTile::PowerUp { kind, duration_ms } => Some(
            PowerUp {
                collected: false,
                power_up: kind,
                duration: duration_ms,
                collider: Collider::make(ColliderType::Collectible, tile_pos(p, tile), tile.x, tile.y, Vec2i { x: 0, y: 0 }),
                texture_key: tex.power_ups,
                size: tile,
            },
        ),
        _ => None,
    }
}

pub open spec fn cannon_of(p: MapPixel, tile: Vec2i, tex: MapTextures, now: u64, scale_milli: u16) -> Option<Cannon> {
    match pixel_tile(p) {
        MapTile::Cannon { direction, interval_ms, offset_ms, damage } => Some(
            Cannon {
                pos: tile_pos(p, tile),
                size: tile,
                speed: interval_ms,
                direction,
                last_shoot: if now + offset_ms > u64::MAX {
                    u64::MAX
                } else {
                    (now + offset_ms) as u64
                },
                projectile_speed: scaled_spec(MAP_SHOT_SPEED as int, scale_milli as int) as i32,
                projectile_time: MAP_SHOT_TIME_MS,
                collider: Collider::make(ColliderType::Solid, tile_pos(p, tile), tile.x, tile.y, Vec2i { x: 0, y: 0 }),
                texture_key: tex.cannon,
                projectile_texture_key: tex.projectile,
                damage,
            },
        ),
        _ => None,
    }
}

/// Position and damage of an enemy pixel.
pub open spec fn enemy_of(p: MapPixel, tile: Vec2i) -> Option<(Vec2i, i16)> {
    match pixel_tile(p) {
        MapTile::Enemy { damage } => Some((tile_pos(p, tile), damage)),
        _ => None,
    }
}

/// Position of the last player pixel.
pub open spec fn player_of(p: MapPixel, tile: Vec2i) -> Option<Vec2i> {
    match pixel_tile(p) {
        MapTile::Player => Some(tile_pos(p, tile)),
        _ => None,
    }
}

fn pos_of(p: &MapPixel, tile: Vec2i) -> (r: Vec2i)
    ensures
        r == tile_pos(*p, tile),
{
    proof {
        assert(-0x4000_0000_0000_0000 <= (tile.x as int) * (p.row as int) <= 0x4000_0000_0000_0000) by (nonlinear_arith)
            requires
                -0x8000_0000 <= tile.x < 0x8000_0000,
                -0x8000_0000 <= p.row < 0x8000_0000,
        ;
        assert(-0x4000_0000_0000_0000 <= (tile.y as int) * (p.col as int) <= 0x4000_0000_0000_0000) by (nonlinear_arith)
            requires
                -0x8000_0000 <= tile.y < 0x8000_0000,
                -0x8000_0000 <= p.col < 0x8000_0000,
        ;
    }
    let x: i64 = tile.x as i64 * p.row as i64;
    let y: i64 = tile.y as i64 * p.col as i64;
    vec2i(clamp_to_i32(x), clamp_to_i32(y))
}

fn clamp_to_i32(v: i64) -> (r: i32)
    ensures
        r == clamp_i32(v as int),
{
    if v < i32::MIN as i64 {
        i32::MIN
    } else if v > i32::MAX as i64 {
        i32::MAX
    } else {
        v as i32
    }
}

} // verus!

verus! {

/// `e` is the enemy [`Enemy::new`] makes at `pos` with `damage`, `size` and `texture`.
pub open spec fn enemy_placed(e: Enemy, pos: Vec2i, damage: i16, size: Vec2i, texture: TextureKey) -> bool {
    &&& e.wf()
    &&& e.pos == pos && e.start_pos == pos && e.damage == damage && e.size == size
    &&& e.texture_key == texture && e.health == crate::enemy::ENEMY_HEALTH && !e.deletable
    &&& e.state == EnemyState::Idling
}

/// Builds a level from the pixels of its map, in the order given: each pixel's
/// tile (see [`MapTile`]) is placed at its row and column times `tile_size`.
/// Players and enemies are two pixels smaller than a tile; the last player pixel
/// wins, and without one the player is an empty one at the origin.
pub fn level_map_from_image(pixels: &Vec<MapPixel>, tile_size: Vec2i, textures: MapTextures, now: u64, scale_milli: u16) -> (r: LevelLayout)
    requires
        2 <= tile_size.x <= MAX_ENEMY_SIZE,
        2 <= tile_size.y <= MAX_ENEMY_SIZE,
    ensures
        r.platforms@ == pick(pixels@, |p: MapPixel| platform_of(p, tile_size, textures)),
        r.collectibles@ == pick(pixels@, |p: MapPixel| coin_of(p, tile_size, textures)),
        r.power_ups@ == pick(pixels@, |p: MapPixel| power_up_of(p, tile_size, textures)),
        r.cannons@ == pick(pixels@, |p: MapPixel| cannon_of(p, tile_size, textures, now, scale_milli)),
        ({
            let es = pick(pixels@, |p: MapPixel| enemy_of(p, tile_size));
            &&& r.enemies@.len() == es.len()
            &&& forall|k: int|
                0 <= k < es.len() ==> #[trigger] enemy_placed(
                    r.enemies@[k],
                    es[k].0,
                    es[k].1,
                    Vec2i { x: (tile_size.x - 2) as i32, y: (tile_size.y - 2) as i32 },
                    textures.enemy,
                )
        }),
        ({
            let ps = pick(pixels@, |p: MapPixel| player_of(p, tile_size));
            r.player == if ps.len() > 0 {
                Player::fresh((tile_size.x - 2) as i32, (tile_size.y - 2) as i32, ps.last(), 1)
            } else {
                Player::fresh(0, 0, Vec2i { x: 0, y: 0 }, 0)
            }
        }),
{
    let ghost fp = |p: MapPixel| platform_of(p, tile_size, textures);
    let ghost fc = |p: MapPixel| coin_of(p, tile_size, textures);
    let ghost fu = |p: MapPixel| power_up_of(p, tile_size, textures);
    let ghost fk = |p: MapPixel| cannon_of(p, tile_size, textures, now, scale_milli);
    let ghost fe = |p: MapPixel| enemy_of(p, tile_size);
    let ghost fq = |p: MapPixel| player_of(p, tile_size);
    let small = vec2i(tile_size.x - 2, tile_size.y - 2);
    let mut player = Player::new(0, 0, vec2i(0, 0), 0);
    let mut platforms: Vec<Platform> = Vec::new();
    let mut collectibles: Vec<Collectible> = Vec::new();
    let mut enemies: Vec<Enemy> = Vec::new();
    let mut cannons: Vec<Cannon> = Vec::new();
    let mut power_ups: Vec<PowerUp> = Vec::new();
    let shot_speed = scaled(MAP_SHOT_SPEED, scale_milli);
    let mut i: usize = 0;
    while i < pixels.len()
        invariant
            0 <= i <= pixels@.len(),
            2 <= tile_size.x <= MAX_ENEMY_SIZE,
            2 <= tile_size.y <= MAX_ENEMY_SIZE,
            small == (Vec2i { x: (tile_size.x - 2) as i32, y: (tile_size.y - 2) as i32 }),
            shot_speed == scaled_spec(MAP_SHOT_SPEED as int, scale_milli as int),
            fp == (|p: MapPixel| platform_of(p, tile_size, textures)),
            fc == (|p: MapPixel| coin_of(p, tile_size, textures)),
            fu == (|p: MapPixel| power_up_of(p, tile_size, textures)),
            fk == (|p: MapPixel| cannon_of(p, tile_size, textures, now, scale_milli)),
            fe == (|p: MapPixel| enemy_of(p, tile_size)),
            fq == (|p: MapPixel| player_of(p, tile_size)),
            platforms@ == pick(pixels@.take(i as int), fp),
            collectibles@ == pick(pixels@.take(i as int), fc),
            power_ups@ == pick(pixels@.take(i as int), fu),
            cannons@ == pick(pixels@.take(i as int), fk),
            enemies@.len() == pick(pixels@.take(i as int), fe).len(),
            forall|k: int|
                0 <= k < enemies@.len() ==> #[trigger] enemy_placed(
                    enemies@[k],
                    pick(pixels@.take(i as int), fe)[k].0,
                    pick(pixels@.take(i as int), fe)[k].1,
                    small,
                    textures.enemy,
                ),
            player == if pick(pixels@.take(i as int), fq).len() > 0 {
                Player::fresh(small.x, small.y, pick(pixels@.take(i as int), fq).last(), 1)
            } else {
                Player::fresh(0, 0, Vec2i { x: 0, y: 0 }, 0)
            },
        decreases pixels@.len() - i,
    {
        let p = pixels[i];
        proof {
            assert(pixels@.take(i as int + 1).drop_last() =~= pixels@.take(i as int));
            assert(pixels@.take(i as int + 1).last() == p);
        }
        let ghost es_before = pick(pixels@.take(i as int), fe);
        let pos = pos_of(&p, tile_size);
        match tile_from_rgba(p.r, p.g, p.b, p.a) {
            MapTile::Player => {
                player = Player::new(small.x, small.y, pos, 1);
            },
            MapTile::Platform { variant } => {
                platforms.push(Platform::new(pos, tile_size, textures.platform, variant));
            },
            MapTile::Cannon { direction, interval_ms, offset_ms, damage } => {
                cannons.push(
                    Cannon::new(
                        pos,
                        tile_size,
                        interval_ms,
                        offset_ms,
                        direction,
                        shot_speed,
                        MAP_SHOT_TIME_MS,
                        textures.cannon,
                        textures.projectile,
                        damage,
                        now,
                    ),
                );
            },
            MapTile::Coin => {
                collectibles.push(Collectible::new(CollectibleType::Coin, pos, tile_size, textures.coin));
            },
            MapTile::PowerUp { kind, duration_ms } => {
                power_ups.push(PowerUp::new(kind, duration_ms, pos, tile_size, textures.power_ups));
            },
            MapTile::Enemy { damage } => {
                let e = Enemy::new(pos, damage, small, textures.enemy);
                enemies.push(e);
                proof {
                    let es = pick(pixels@.take(i as int + 1), fe);
                    assert(es == es_before.push((pos, damage)));
                    assert forall|k: int| 0 <= k < enemies@.len() implies #[trigger] enemy_placed(
                        enemies@[k],
                        es[k].0,
                        es[k].1,
                        small,
                        textures.enemy,
                    ) by {
                        if k < enemies@.len() - 1 {
                            assert(enemy_placed(enemies@[k], es_before[k].0, es_before[k].1, small, textures.enemy));
                        }
                    }
                }
            },
            MapTile::Empty => {},
        }
        i = i + 1;
    }
    proof {
        assert(pixels@.take(pixels@.len() as int) =~= pixels@);
    }
    LevelLayout { player, platforms, collectibles, enemies, cannons, power_ups }
}

} // verus!
