use platformer::enemy::{Enemy, EnemySenses, EnemyState};
use platformer::enums::TextureKey;
use platformer::geometry::{vec2i, Rect};
use platformer::level::Platform;
use platformer::matrix::Matrix;
use platformer::player::{Player, ShootInput};
use platformer::projectile::{Projectile, ProjectileOrigin};
use platformer::timer::Timer;

fn player_at(x: i32, y: i32) -> Player {
    Player::new(64, 64, vec2i(x, y), 0)
}

fn free_senses() -> EnemySenses {
    EnemySenses {
        on_ground: true,
        sealing_hit: false,
        touching_wall: false,
        ground_ahead_right: true,
        ground_ahead_left: true,
        blocked: Matrix::new(),
    }
}

fn shot(x: i32, y: i32, damage: i16, origin: ProjectileOrigin) -> Projectile {
    Projectile::new(vec2i(x, y), vec2i(32, 32), damage, 4000, TextureKey::Projectile0, origin, vec2i(0, 0), 0)
}

#[test]
fn overlap_is_symmetric() {
    let rects = [
        Rect::new(0, 0, 10, 10),
        Rect::new(5, 5, 10, 10),
        Rect::new(10, 0, 10, 10),
        Rect::new(11, 0, 10, 10),
        Rect::new(-20, -20, 5, 5),
        Rect::new(0, 10, 3, 3),
    ];
    for a in rects.iter() {
        for b in rects.iter() {
            assert_eq!(a.overlaps(b), b.overlaps(a));
        }
    }
}

#[test]
fn overlap_includes_shared_edge() {
    let a = Rect::new(0, 0, 10, 10);
    let b = Rect::new(10, 0, 10, 10);
    assert!(a.overlaps(&b));
    let c = Rect::new(0, 10, 10, 10);
    assert!(a.overlaps(&c));
    let d = Rect::new(11, 0, 10, 10);
    assert!(!a.overlaps(&d));
    assert_eq!(a.right(), 10);
    assert_eq!(a.bottom(), 10);
    assert_eq!(b.left(), 10);
    assert_eq!(b.top(), 0);
}

#[test]
fn damage_cooldown_applies_once_per_window() {
    let mut p = player_at(0, 0);
    p.damage(100, 0);
    assert_eq!(p.health, 900);
    p.damage(100, 300);
    assert_eq!(p.health, 900);
    p.damage(100, 500);
    assert_eq!(p.health, 900);
    p.damage(100, 600);
    assert_eq!(p.health, 800);
    assert_eq!(p.total_damage_received, 200);
    assert_eq!(p.triggers.damage_cooldown, Timer::Active { since: 600 });
    assert_eq!(p.triggers.damage_overlay, Timer::Active { since: 600 });
}

#[test]
fn health_never_below_zero() {
    let mut p = player_at(0, 0);
    p.damage(100000, 0);
    assert_eq!(p.health, 0);
    p.damage(100000, 1000);
    assert_eq!(p.health, 0);
    assert_eq!(p.total_damage_received, 200000);
}

#[test]
fn enemy_death_counts_one_kill() {
    let mut p = player_at(1000, 1000);
    let mut e = Enemy::new(vec2i(0, 0), -50, vec2i(64, 64), TextureKey::Enemy0);
    e.take_hit(-1000, &mut p, 0);
    assert_eq!(e.health, 0);
    assert!(e.deletable);
    assert_eq!(p.kills, 1);
    assert_eq!(p.total_damage, 1000);
}

#[test]
fn partial_hit_is_no_kill() {
    let mut p = player_at(1000, 1000);
    let mut e = Enemy::new(vec2i(0, 0), -50, vec2i(64, 64), TextureKey::Enemy0);
    e.take_hit(-200, &mut p, 0);
    assert_eq!(e.health, 800);
    assert!(!e.deletable);
    assert_eq!(p.kills, 0);
    assert_eq!(p.total_damage, 200);
    // a second shot inside the cooldown does nothing
    e.take_hit(-200, &mut p, 400);
    assert_eq!(e.health, 800);
    e.take_hit(-200, &mut p, 501);
    assert_eq!(e.health, 600);
}

#[test]
fn projectile_expires_by_timeout() {
    let platforms: Vec<Platform> = Vec::new();
    let enemies: Vec<Enemy> = Vec::new();
    let far = player_at(100000, 100000);
    let mut p = shot(0, 0, -200, ProjectileOrigin::Player);
    p.tick(&platforms, &enemies, &far, 4000, 16);
    assert!(!p.deletable);
    assert!(p.active);
    p.tick(&platforms, &enemies, &far, 4001, 16);
    assert!(p.deletable);
    assert!(!p.active);
}

#[test]
fn projectile_moves_by_velocity() {
    let platforms: Vec<Platform> = Vec::new();
    let enemies: Vec<Enemy> = Vec::new();
    let far = player_at(100000, 100000);
    let mut p = Projectile::new(vec2i(0, 0), vec2i(8, 8), -10, 4000, TextureKey::Projectile0, ProjectileOrigin::Canon, vec2i(1000, -500), 0);
    p.tick(&platforms, &enemies, &far, 10, 16);
    assert_eq!(p.pos, vec2i(16, -8));
    assert_eq!(p.collider.pos(), vec2i(16, -8));
}

#[test]
fn projectile_stops_at_platform_and_enemy() {
    let platforms = vec![Platform::new(vec2i(0, 0), vec2i(100, 100), TextureKey::Platform0, 0)];
    let no_platforms: Vec<Platform> = Vec::new();
    let enemies = vec![Enemy::new(vec2i(500, 0), -50, vec2i(64, 64), TextureKey::Enemy0)];
    let no_enemies: Vec<Enemy> = Vec::new();
    let far = player_at(100000, 100000);
    let mut p = shot(50, 50, -200, ProjectileOrigin::Player);
    p.tick(&platforms, &no_enemies, &far, 0, 16);
    assert!(p.deletable);
    let mut q = shot(520, 10, -200, ProjectileOrigin::Player);
    q.tick(&no_platforms, &enemies, &far, 0, 16);
    assert!(q.deletable);
}

#[test]
fn friendly_fire_is_excluded() {
    let enemies: Vec<Enemy> = Vec::new();
    let platforms: Vec<Platform> = Vec::new();
    let mut p = player_at(0, 0);
    let own = vec![shot(10, 10, -200, ProjectileOrigin::Player)];
    p.tick(&enemies, &own, ShootInput::Idle, 0, 1000);
    assert_eq!(p.health, 1000);
    // the player's own shot does not end on the player
    let mut s = own[0];
    s.tick(&platforms, &enemies, &p, 0, 16);
    assert!(!s.deletable);

    let hostile = vec![shot(10, 10, -200, ProjectileOrigin::Canon)];
    p.tick(&enemies, &hostile, ShootInput::Idle, 0, 1000);
    assert_eq!(p.health, 800);
    let mut t = hostile[0];
    t.tick(&platforms, &enemies, &p, 0, 16);
    assert!(t.deletable);
}

#[test]
fn occluded_player_is_not_sighted() {
    // player three cells to the right of the enemy, on the same line
    let player = player_at(192, 0);
    // a wall one cell to the right, three cells tall
    let mut blocked: Matrix<bool> = Matrix::new();
    blocked.insert(1, -1, true);
    blocked.insert(1, 0, true);
    blocked.insert(1, 1, true);
    let senses = EnemySenses { blocked, ..free_senses() };
    let mut e = Enemy::new(vec2i(0, 0), -50, vec2i(64, 64), TextureKey::Enemy0);
    assert!(!e.tile_visible(&senses.blocked, 3, 0));
    e.plan(&senses, &player);
    assert_eq!(e.state, EnemyState::Idling);

    let mut f = Enemy::new(vec2i(0, 0), -50, vec2i(64, 64), TextureKey::Enemy0);
    let open = free_senses();
    assert!(f.tile_visible(&open.blocked, 3, 0));
    f.plan(&open, &player);
    assert_eq!(f.state, EnemyState::Attacking);
}

#[test]
fn sight_path_skips_end_cells() {
    let mut blocked: Matrix<bool> = Matrix::new();
    blocked.insert(3, 0, true);
    blocked.insert(0, 0, true);
    let e = Enemy::new(vec2i(0, 0), -50, vec2i(64, 64), TextureKey::Enemy0);
    assert!(e.tile_visible(&blocked, 3, 0));
    let mut side: Matrix<bool> = Matrix::new();
    side.insert(-2, -1, true);
    assert!(!e.tile_visible(&side, -2, -2));
    assert!(e.tile_visible(&side, -2, -1));
}

/// Ground from `left` to `right` under the enemy; the enemy stands on it.
fn patrol_senses(e: &Enemy, left: i32, right: i32) -> EnemySenses {
    let x = e.pos.x;
    let w = e.size.x;
    EnemySenses {
        ground_ahead_right: x + w + 1 < right && x + w + 1 + w > left,
        ground_ahead_left: x - w - 1 < right && x - w - 1 + w > left,
        ..free_senses()
    }
}

#[test]
fn idle_patrol_stays_on_ground_and_turns() {
    let left = -65;
    let right = 200;
    let far = player_at(100000, 100000);
    let mut player = far;
    let projectiles: Vec<Projectile> = Vec::new();
    let mut e = Enemy::new(vec2i(0, 0), -50, vec2i(64, 64), TextureKey::Enemy0);
    let mut turns = 0;
    let mut last_dir = e.waiters.idling_right;
    let mut min_x = 0;
    let mut max_x = 0;
    for frame in 0..400u64 {
        let senses = patrol_senses(&e, left, right);
        let m = e.tick(&senses, &mut player, &projectiles, frame * 16, 16, 1000);
        assert_eq!(m.y, 0);
        let next = vec2i(e.pos.x + m.x, e.pos.y);
        e.update_pos(next);
        // never walks off: some part of the body stays over the ground
        assert!(e.pos.x + e.size.x > left);
        assert!(e.pos.x < right);
        if e.waiters.idling_right != last_dir {
            turns += 1;
            last_dir = e.waiters.idling_right;
        }
        min_x = min_x.min(e.pos.x);
        max_x = max_x.max(e.pos.x);
        assert_eq!(e.state, EnemyState::Idling);
    }
    assert!(turns >= 4);
    assert!(min_x < -40);
    assert!(max_x > 120);
    assert_eq!(player, far);
}

#[test]
fn struck_player_recovers_after_cooldown() {
    let no_enemies: Vec<Enemy> = Vec::new();
    let mut p = player_at(0, 0);
    assert_eq!(p.health, 1000);
    let hostile = vec![shot(10, 10, -200, ProjectileOrigin::Canon)];
    p.tick(&no_enemies, &hostile, ShootInput::Idle, 0, 1000);
    assert_eq!(p.health, 800);
    let touching = vec![Enemy::new(vec2i(20, 20), -200, vec2i(64, 64), TextureKey::Enemy0)];
    let none: Vec<Projectile> = Vec::new();
    p.tick(&touching, &none, ShootInput::Idle, 100, 1000);
    assert_eq!(p.health, 800);
    p.tick(&touching, &none, ShootInput::Idle, 600, 1000);
    assert_eq!(p.health, 600);
}
