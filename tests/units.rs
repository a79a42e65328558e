use platformer::cannon::Cannon;
use platformer::collider::{Collider, ColliderType};
use platformer::enemy::{Enemy, EnemyBehavior, EnemySenses, EnemyState, resolve_behavior};
use platformer::enums::{Direction, TextureKey};
use platformer::geometry::{add_clamped, frame_step, scaled, vec2i, Rect, Vec2i};
use platformer::level::{
    remove_elements_vec, Collectible, CollectibleType, Level, LevelData, LevelStat, Platform, PowerUp, Trigger,
};
use platformer::matrix::Matrix;
use platformer::player::{Player, PlayerInput, PlayerPowerUp, PlayerSenses, PlayerTrigger, ShootInput};
use platformer::projectile::{Projectile, ProjectileOrigin};
use platformer::timer::Timer;

fn player_at(x: i32, y: i32) -> Player {
    Player::new(64, 64, vec2i(x, y), 0)
}

fn free_senses() -> EnemySenses {
    EnemySenses {
        on_ground: true,
        sealing_hit: false,
        touching_wall: false,
        ground_ahead_right: true,
        ground_ahead_left: true,
        blocked: Matrix::new(),
    }
}

fn empty_level(player: Player) -> LevelData {
    LevelData::new(Level::Level0, player, Vec::new(), Vec::new(), Vec::new(), Vec::new(), Vec::new(), 0)
}

#[test]
fn matrix_insert_get_overwrite() {
    let mut m: Matrix<i32> = Matrix::new();
    assert_eq!(m.get(0, 0), None);
    m.insert(0, 0, 5);
    m.insert(-3, 2, 7);
    assert_eq!(m.get(0, 0), Some(&5));
    assert_eq!(m.get(-3, 2), Some(&7));
    assert_eq!(m.get(2, -3), None);
    m.insert(0, 0, 9);
    assert_eq!(m.get(0, 0), Some(&9));
    assert_eq!(m.len(), 2);
}

#[test]
fn frame_step_and_scale_values() {
    assert_eq!(frame_step(1300, 16), 20);
    assert_eq!(frame_step(-1300, 16), -20);
    assert_eq!(frame_step(999, 1), 0);
    assert_eq!(frame_step(-999, 1), 0);
    assert_eq!(frame_step(i32::MAX, u32::MAX), i32::MAX);
    assert_eq!(frame_step(i32::MIN, u32::MAX), i32::MIN);
    assert_eq!(scaled(4800, 1000), 4800);
    assert_eq!(scaled(700, 1500), 1050);
    assert_eq!(scaled(100, 1), 0);
    assert_eq!(add_clamped(i32::MAX, 5), i32::MAX);
    assert_eq!(add_clamped(-5, -3), -8);
}

#[test]
fn collider_constructors_and_moves() {
    let c = Collider::new_trigger(vec2i(3, 4), 10, 20, vec2i(1, 2));
    assert_eq!(c.rect, Rect::new(4, 6, 10, 20));
    assert_eq!(c.offset, vec2i(1, 2));
    assert_eq!(c.collider_type, ColliderType::Trigger);
    let mut d = Collider::new_solid(vec2i(0, 0), 5, 5, vec2i(0, 0));
    d.change_pos(vec2i(7, -7));
    assert_eq!(d.pos(), vec2i(7, -7));
    assert_eq!(d.rect.w, 5);
    assert_eq!(Collider::new_enemy(vec2i(0, 0), 1, 1, vec2i(0, 0)).collider_type, ColliderType::Enemy);
    assert_eq!(Collider::new_actor(vec2i(0, 0), 1, 1, vec2i(0, 0)).collider_type, ColliderType::Actor);
    assert_eq!(Collider::new_projectile(vec2i(0, 0), 1, 1, vec2i(0, 0)).collider_type, ColliderType::Projectile);
    assert_eq!(Collider::new_collectible(vec2i(0, 0), 1, 1, vec2i(0, 0)).collider_type, ColliderType::Collectible);
}

#[test]
fn collide_checks_list_every_hit_in_order() {
    let probe = Collider::new_actor(vec2i(0, 0), 10, 10, vec2i(0, 0));
    let platforms = vec![
        Platform::new(vec2i(100, 0), vec2i(10, 10), TextureKey::Platform0, 0),
        Platform::new(vec2i(5, 5), vec2i(10, 10), TextureKey::Platform0, 0),
        Platform::new(vec2i(10, 0), vec2i(10, 10), TextureKey::Platform0, 0),
    ];
    assert_eq!(probe.collide_check_platform(&platforms, vec2i(0, 0)), vec![1, 2]);
    assert_eq!(probe.collide_check_platform(&platforms, vec2i(95, 0)), vec![0]);
    assert_eq!(probe.collide_check_platform(&platforms, vec2i(0, 50)), Vec::<usize>::new());
    let enemies = vec![
        Enemy::new(vec2i(500, 500), -1, vec2i(64, 64), TextureKey::Enemy0),
        Enemy::new(vec2i(8, 8), -1, vec2i(64, 64), TextureKey::Enemy0),
    ];
    assert_eq!(probe.collide_check_enemy(&enemies, vec2i(0, 0)), vec![1]);
    let projectiles = vec![Projectile::new(vec2i(0, 0), vec2i(2, 2), -1, 10, TextureKey::Projectile0, ProjectileOrigin::Canon, vec2i(0, 0), 0)];
    assert_eq!(probe.collide_check_projectile(&projectiles, vec2i(0, 0)), vec![0]);
    let player = player_at(9, 9);
    assert!(probe.touching_player(&player));
}

#[test]
fn enemy_grid_cells_follow_the_anchor() {
    let mut e = Enemy::new(vec2i(10, 20), -5, vec2i(64, 32), TextureKey::Enemy0);
    assert_eq!(e.colliders.len(), 54);
    assert_eq!(e.colliders.get(0, 0).unwrap().collider_type, ColliderType::Enemy);
    let c = e.colliders.get(2, -1).unwrap();
    assert_eq!(c.collider_type, ColliderType::Trigger);
    assert_eq!(c.rect, Rect::new(10 + 128, 20 - 32, 64, 32));
    assert_eq!(c.offset, vec2i(128, -32));
    e.update_pos(vec2i(-100, 0));
    assert_eq!(e.colliders.get(2, -1).unwrap().rect, Rect::new(28, -32, 64, 32));
    assert_eq!(e.colliders.get(0, 0).unwrap().rect, Rect::new(-100, 0, 64, 32));
    assert_eq!(e.pos, vec2i(-100, 0));
    assert!(e.colliders.get(5, 0).is_none());
}

#[test]
fn enemy_jumps_at_wall_and_falls() {
    let far = player_at(100000, 100000);
    let mut p = far;
    let none: Vec<Projectile> = Vec::new();
    let mut e = Enemy::new(vec2i(0, 0), -5, vec2i(64, 64), TextureKey::Enemy0);
    let wall = EnemySenses { touching_wall: true, ..free_senses() };
    let m = e.tick(&wall, &mut p, &none, 0, 16, 1000);
    assert_eq!(e.speed, vec2i(700, -1900));
    assert_eq!(m, vec2i(11, -30));
    assert!(e.waiters.jumping);
    assert!(e.behavior.is_empty());
    let air = EnemySenses { on_ground: false, ..free_senses() };
    e.tick(&air, &mut p, &none, 16, 16, 1000);
    assert_eq!(e.speed.y, -1900 + 76);
}

#[test]
fn attacking_enemy_walks_toward_player_and_gives_up() {
    let none: Vec<Projectile> = Vec::new();
    let mut p = player_at(192, 0);
    let mut e = Enemy::new(vec2i(0, 0), -5, vec2i(64, 64), TextureKey::Enemy0);
    e.tick(&free_senses(), &mut p, &none, 0, 16, 1000);
    assert_eq!(e.state, EnemyState::Attacking);
    e.tick(&free_senses(), &mut p, &none, 16, 16, 1000);
    assert_eq!(e.speed.x, 700);
    assert!(e.waiters.idling_right);
    let mut gone = player_at(100000, 0);
    e.tick(&free_senses(), &mut gone, &none, 32, 16, 1000);
    assert_eq!(e.state, EnemyState::Idling);
    let mut left = player_at(-192, 0);
    let mut f = Enemy::new(vec2i(0, 0), -5, vec2i(64, 64), TextureKey::Enemy0);
    f.state = EnemyState::Attacking;
    f.tick(&free_senses(), &mut left, &none, 0, 16, 1000);
    assert_eq!(f.speed.x, -700);
    assert!(!f.waiters.idling_right);
}

#[test]
fn resolve_behavior_keeps_last_horizontal() {
    let intents = vec![
        EnemyBehavior::Move(Direction::Right),
        EnemyBehavior::Move(Direction::Up),
        EnemyBehavior::Move(Direction::Left),
    ];
    assert_eq!(resolve_behavior(&intents, vec2i(0, 5), true, 700, 1900), vec2i(-700, -1900));
    assert_eq!(resolve_behavior(&intents, vec2i(0, 5), false, 700, 1900), vec2i(-700, 5));
}

#[test]
fn cannon_fires_on_interval_with_offset() {
    let mut c = Cannon::new(vec2i(0, 0), vec2i(64, 64), 1000, 300, Direction::Left, 1000, 10000, TextureKey::Cannon0, TextureKey::Projectile0, -20, 0);
    assert_eq!(c.last_shoot, 300);
    let mut shots: Vec<Projectile> = Vec::new();
    c.tick(&mut shots, 1299);
    assert!(shots.is_empty());
    c.tick(&mut shots, 1300);
    assert_eq!(shots.len(), 1);
    assert_eq!(c.last_shoot, 1300);
    let s = shots[0];
    assert_eq!(s.speed, vec2i(-1000, 0));
    assert_eq!(s.size, vec2i(32, 32));
    assert_eq!(s.pos, vec2i(16, 16));
    assert_eq!(s.origin, ProjectileOrigin::Canon);
    assert_eq!(s.damage, -20);
    assert_eq!(s.start_time, 1300);
    c.tick(&mut shots, 2299);
    assert_eq!(shots.len(), 1);
    c.tick(&mut shots, 2300);
    assert_eq!(shots.len(), 2);
}

#[test]
fn control_walks_jumps_and_falls() {
    let mut p = player_at(0, 0);
    let ground = PlayerSenses { on_ground: true, sealing_hit: false };
    let m = p.control(ground, PlayerInput { right: true, left: false, jump: true }, 0, 16, 1000);
    assert_eq!(p.speed, vec2i(1300, -2000));
    assert_eq!(m, vec2i(20, -32));
    assert_eq!(p.state, 1);
    assert!(!p.trigger_active(PlayerTrigger::OnGround));
    let air = PlayerSenses { on_ground: false, sealing_hit: false };
    p.control(air, PlayerInput { right: false, left: true, jump: true }, 16, 16, 1000);
    assert_eq!(p.speed, vec2i(-1300, -2000 + 76));
    assert_eq!(p.state, 0);
    let ceiling = PlayerSenses { on_ground: false, sealing_hit: true };
    p.control(ceiling, PlayerInput { right: false, left: false, jump: false }, 32, 16, 1000);
    assert_eq!(p.speed, vec2i(0, 1 + 76));
    assert_eq!(p.state, 2);
    p.control(ground, PlayerInput { right: false, left: false, jump: false }, 48, 16, 1000);
    assert_eq!(p.speed.y, 0);
    assert!(p.triggers.on_ground);
    assert_eq!(p.triggers.last_grounded, 48);
}

#[test]
fn ground_latch_outlasts_short_airtime() {
    let mut p = player_at(0, 0);
    let ground = PlayerSenses { on_ground: true, sealing_hit: false };
    let air = PlayerSenses { on_ground: false, sealing_hit: false };
    let idle = PlayerInput { right: false, left: false, jump: false };
    p.triggers.on_ground = false;
    p.control(ground, idle, 1000, 16, 1000);
    p.control(air, idle, 1200, 16, 1000);
    assert!(p.triggers.on_ground);
    p.control(air, idle, 1301, 16, 1000);
    assert!(!p.triggers.on_ground);
}

#[test]
fn boosts_change_speeds_and_damage() {
    let mut p = player_at(0, 0);
    let mut boost = PowerUp::new(PlayerPowerUp::SpeedBoost, 5000, vec2i(0, 0), vec2i(10, 10), TextureKey::PowerUps0);
    boost.tick(&mut p, 100);
    assert!(boost.collected);
    let mut jump = PowerUp::new(PlayerPowerUp::JumpBoost, 5000, vec2i(0, 0), vec2i(10, 10), TextureKey::PowerUps0);
    jump.tick(&mut p, 100);
    let mut dmg = PowerUp::new(PlayerPowerUp::Damage2x, 5000, vec2i(0, 0), vec2i(10, 10), TextureKey::PowerUps0);
    dmg.tick(&mut p, 100);
    let ground = PlayerSenses { on_ground: true, sealing_hit: false };
    p.control(ground, PlayerInput { right: true, left: false, jump: true }, 200, 16, 1000);
    assert_eq!(p.speed, vec2i(2600, -2500));
    let none_e: Vec<Enemy> = Vec::new();
    let none_p: Vec<Projectile> = Vec::new();
    let out = p.tick(&none_e, &none_p, ShootInput::Right, 200, 1000);
    assert_eq!(out.shot.unwrap().damage, -400);
    // every boost has run out after its duration
    p.tick(&none_e, &none_p, ShootInput::Idle, 5101, 1000);
    assert!(!p.power_ups.contains(PlayerPowerUp::SpeedBoost));
    assert!(!p.power_ups.contains(PlayerPowerUp::JumpBoost));
    assert!(!p.power_ups.contains(PlayerPowerUp::Damage2x));
}

#[test]
fn power_up_expires_after_duration() {
    let mut p = player_at(0, 0);
    let mut pu = PowerUp::new(PlayerPowerUp::Coins2x, 1000, vec2i(0, 0), vec2i(10, 10), TextureKey::PowerUps0);
    pu.tick(&mut p, 0);
    let none_e: Vec<Enemy> = Vec::new();
    let none_p: Vec<Projectile> = Vec::new();
    p.tick(&none_e, &none_p, ShootInput::Idle, 1000, 1000);
    assert!(p.power_ups.contains(PlayerPowerUp::Coins2x));
    p.tick(&none_e, &none_p, ShootInput::Idle, 1001, 1000);
    assert!(!p.power_ups.contains(PlayerPowerUp::Coins2x));
}

#[test]
fn shooting_respects_timeout() {
    let mut p = player_at(0, 0);
    let none_e: Vec<Enemy> = Vec::new();
    let none_p: Vec<Projectile> = Vec::new();
    let first = p.tick(&none_e, &none_p, ShootInput::Left, 0, 1000);
    let s = first.shot.unwrap();
    assert_eq!(s.speed, vec2i(-2000, 0));
    assert_eq!(s.pos, vec2i(16, 16));
    assert_eq!(s.size, vec2i(32, 32));
    assert_eq!(s.damage, -200);
    assert_eq!(s.max_time, 4000);
    assert_eq!(s.origin, ProjectileOrigin::Player);
    assert!(p.tick(&none_e, &none_p, ShootInput::Left, 30, 1000).shot.is_none());
    // the timeout ends in this frame, without a shot
    assert!(p.tick(&none_e, &none_p, ShootInput::Left, 51, 1000).shot.is_none());
    let aimed = p.tick(&none_e, &none_p, ShootInput::Aim(vec2i(3, 4)), 60, 1000);
    assert_eq!(aimed.shot.unwrap().speed, vec2i(3, 4));
}

#[test]
fn damage_flash_ends_after_overlay_time() {
    let mut p = player_at(0, 0);
    let none_e: Vec<Enemy> = Vec::new();
    let none_p: Vec<Projectile> = Vec::new();
    p.damage(10, 0);
    p.tick(&none_e, &none_p, ShootInput::Idle, 250, 1000);
    assert!(p.damage_flash);
    p.tick(&none_e, &none_p, ShootInput::Idle, 251, 1000);
    assert!(!p.damage_flash);
    assert_eq!(p.triggers.damage_overlay, Timer::Inactive);
}

#[test]
fn collectibles_are_removed_and_counted() {
    let mut level = empty_level(player_at(0, 0));
    level.collectibles.push(Collectible::new(CollectibleType::Coin, vec2i(10, 10), vec2i(8, 8), TextureKey::Coin0));
    level.collectibles.push(Collectible::new(CollectibleType::Coin, vec2i(900, 10), vec2i(8, 8), TextureKey::Coin0));
    level.collectibles.push(Collectible::new(CollectibleType::Coin, vec2i(30, 30), vec2i(8, 8), TextureKey::Coin0));
    level.tick_collectibles();
    assert_eq!(level.player.coins, 2);
    assert_eq!(level.collectibles.len(), 1);
    assert_eq!(level.collectibles[0].collider.pos(), vec2i(900, 10));

    let mut doubled = empty_level(player_at(0, 0));
    let mut pu = PowerUp::new(PlayerPowerUp::Coins2x, 10000, vec2i(0, 0), vec2i(4, 4), TextureKey::PowerUps0);
    pu.tick(&mut doubled.player, 0);
    doubled.collectibles.push(Collectible::new(CollectibleType::Coin, vec2i(10, 10), vec2i(8, 8), TextureKey::Coin0));
    doubled.tick_collectibles();
    assert_eq!(doubled.player.coins, 2);
}

#[test]
fn level_tick_removes_dead_enemies_and_spent_shots() {
    let mut level = empty_level(player_at(5000, 5000));
    let mut dead = Enemy::new(vec2i(0, 0), -5, vec2i(64, 64), TextureKey::Enemy0);
    dead.deletable = true;
    level.enemies.push(dead);
    level.enemies.push(Enemy::new(vec2i(1000, 0), -5, vec2i(64, 64), TextureKey::Enemy0));
    level.projectiles.push(Projectile::new(vec2i(1010, 10), vec2i(8, 8), -1000, 4000, TextureKey::Projectile0, ProjectileOrigin::Player, vec2i(0, 0), 0));
    level.cannons.push(Cannon::new(vec2i(-3000, 0), vec2i(64, 64), 1000, 0, Direction::Up, 10, 4000, TextureKey::Cannon0, TextureKey::Projectile0, -20, 0));
    level.power_ups.push(PowerUp::new(PlayerPowerUp::JumpBoost, 100, vec2i(5000, 5000), vec2i(8, 8), TextureKey::PowerUps0));
    let senses = vec![free_senses(), free_senses()];
    let motions = level.tick_level(&senses, 0, 16, 1000);
    assert_eq!(motions.len(), 1);
    assert_eq!(level.enemies.len(), 1);
    assert_eq!(level.enemies[0].health, 0);
    assert!(level.enemies[0].deletable);
    assert_eq!(level.player.kills, 1);
    let positions = vec![vec2i(1000 + motions[0].x, motions[0].y)];
    level.finish_tick_level(&positions, 1000, 16);
    // the shot hit the enemy, the cannon fired once, the power-up was taken
    assert_eq!(level.projectiles.len(), 1);
    assert_eq!(level.projectiles[0].origin, ProjectileOrigin::Canon);
    assert!(level.power_ups.is_empty());
    assert!(level.player.power_ups.contains(PlayerPowerUp::JumpBoost));
    let motions = level.tick_level(&vec![free_senses()], 1016, 16, 1000);
    assert!(motions.is_empty());
    assert!(level.enemies.is_empty());
}

#[test]
fn game_over_sets_the_flag() {
    let mut level = empty_level(player_at(0, 0));
    level.projectiles.push(Projectile::new(vec2i(0, 0), vec2i(8, 8), -5000, 4000, TextureKey::Projectile0, ProjectileOrigin::Canon, vec2i(0, 0), 0));
    assert!(!level.trigger_active(Trigger::GameOver));
    level.finish_player(vec2i(0, 0), vec2i(-100, -100), ShootInput::Idle, 0, 1000);
    assert_eq!(level.player.health, 0);
    assert!(level.trigger_active(Trigger::GameOver));
    assert_eq!(level.zero, vec2i(-100, -100));
    level.insert_trigger(Trigger::GameOver, false);
    assert!(!level.trigger_active(Trigger::GameOver));
    level.insert_trigger(Trigger::ShowFPS, true);
    level.insert_trigger(Trigger::ShowFPS, true);
    assert_eq!(level.triggers, vec![Trigger::ShowFPS]);
}

#[test]
fn player_frame_adds_shot_and_moves_collider() {
    let mut level = empty_level(player_at(0, 0));
    let m = level.control_player(PlayerSenses { on_ground: true, sealing_hit: false }, PlayerInput { right: true, left: false, jump: false }, 0, 16, 1000);
    assert_eq!(m, vec2i(20, 0));
    level.finish_player(vec2i(20, 0), vec2i(0, 0), ShootInput::Right, 0, 1000);
    assert_eq!(level.player.collider_new.pos(), vec2i(20, 0));
    assert_eq!(level.projectiles.len(), 1);
}

#[test]
fn remove_elements_keeps_order() {
    let v = vec![10, 11, 12, 13, 14];
    assert_eq!(remove_elements_vec(&v, vec![1, 3, 7]), vec![10, 12, 14]);
    assert_eq!(remove_elements_vec(&v, vec![]), v);
}

#[test]
fn level_stat_counts_plays_and_deaths() {
    let mut s = LevelStat::new(Level::Level1);
    s.update(1);
    s.update(0);
    assert_eq!(s.plays, 2);
    assert_eq!(s.deaths, 1);
    assert_eq!(s.level, Level::Level1);
}

#[test]
fn timers_compare_strictly() {
    let t = Timer::Active { since: 100 };
    assert!(t.running(500, 600));
    assert!(!t.elapsed(500, 600));
    assert!(t.elapsed(500, 601));
    assert!(!Timer::Inactive.running(500, 0));
    assert!(t.is_active());
}

#[test]
fn ground_latch_counts_continuous_airtime() {
    let mut p = player_at(0, 0);
    let ground = PlayerSenses { on_ground: true, sealing_hit: false };
    let air = PlayerSenses { on_ground: false, sealing_hit: false };
    let idle = PlayerInput { right: false, left: false, jump: false };
    // standing for a long time, then stepping off a ledge
    p.control(ground, idle, 0, 16, 1000);
    p.control(ground, idle, 5000, 16, 1000);
    p.control(air, idle, 5200, 16, 1000);
    assert!(p.triggers.on_ground);
    p.control(air, idle, 5300, 16, 1000);
    assert!(p.triggers.on_ground);
    p.control(air, idle, 5301, 16, 1000);
    assert!(!p.triggers.on_ground);
}

#[test]
fn deletable_enemies_are_listed_in_order() {
    let mut level = empty_level(player_at(0, 0));
    for i in 0..4 {
        let mut e = Enemy::new(vec2i(100 * i, 0), -5, vec2i(64, 64), TextureKey::Enemy0);
        e.deletable = i % 2 == 1;
        level.enemies.push(e);
    }
    assert_eq!(level.deletable_enemies(), vec![1, 3]);
    let bodies = vec!['a', 'b', 'c', 'd'];
    assert_eq!(remove_elements_vec(&bodies, level.deletable_enemies()), vec!['a', 'c']);
}

#[test]
fn matrix_insert_counts_new_keys_only() {
    let mut m: Matrix<u8> = Matrix::new();
    m.insert(1, 1, 1);
    m.insert(1, 1, 2);
    m.insert(-1, 1, 3);
    assert_eq!(m.len(), 2);
}
