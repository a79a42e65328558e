use vstd::prelude::*;
use crate::geometry::{Rect, Vec2i, vec2i, add_clamped, clamp_i32, div_trunc, frame_step, frame_step_spec, scaled, scaled_spec};
use crate::collider::{Collider, ColliderType};
use crate::timer::{Timer, DAMAGE_OVERLAY_MS, DAMAGE_COOLDOWN_MS, SHOOT_TIMEOUT_MS, ON_GROUND_LATCH_MS};
use crate::enums::TextureKey;
use crate::enemy::Enemy;
use crate::projectile::{Projectile, ProjectileOrigin};

verus! {

/// Health of a fresh player.
pub const PLAYER_HEALTH: i32 = 1000;

/// Walking speed, pixels per second at scale 1.
pub const WALK_SPEED: u16 = 1300;

/// Upward speed of a jump.
pub const JUMP_SPEED: u16 = 2000;

/// Upward speed of a jump under a jump boost.
pub const BOOSTED_JUMP_SPEED: u16 = 2500;

/// Downward acceleration, pixels per second squared.
pub const GRAVITY: u16 = 4800;

/// Downward speed set when the head hits a ceiling, before the frame scaling.
pub const CEILING_BOUNCE: u16 = 100;

/// Speed of the player's shots.
pub const SHOT_SPEED: u16 = 2000;

/// Side of the player's square shots.
pub const SHOT_SIZE: u16 = 32;

/// How long the player's shots fly, in milliseconds.
pub const SHOT_TIME_MS: u64 = 4000;

/// Health change of a player's shot.
pub const SHOT_DAMAGE: i16 = -200;

/// Health change of a player's shot under a damage boost: twice the usual.
pub const BOOSTED_SHOT_DAMAGE: i16 = SHOT_DAMAGE * 2;

/// Counters shown on the heads-up display.
#[derive(Clone, Copy, Debug, PartialEq, Eq, Structural, PartialOrd, Ord)]
pub enum PlayerUIElementType {
    Coins,
    Kills,
}

/// The player's timed flags.
#[derive(Clone, Copy, Debug, PartialEq, Eq, Structural, PartialOrd, Ord)]
pub enum PlayerTrigger {
    DamageOverlay,
    DamageCooldown,
    ShootTimeout,
    OnGround,
}

/// Kinds of power-up.
#[derive(Clone, Copy, Debug, PartialEq, Eq, Structural, PartialOrd, Ord)]
pub enum PlayerPowerUp {
    JumpBoost,
    SpeedBoost,
    Coins2x,
    Damage2x,
}

/// A power-up the player holds: how long it lasts and since when.
#[derive(Clone, Copy, Debug, PartialEq, Eq, Structural)]
pub struct CollectedPowerUp {
    /// Milliseconds.
    pub duration: u64,
    /// Milliseconds.
    pub start: u64,
    pub texture_key: TextureKey,
}

impl CollectedPowerUp {
    pub open spec fn expired_spec(self, now: u64) -> bool {
        self.start + self.duration < now
    }
}

/// The power-ups the player holds, at most one of each kind.
#[derive(Clone, Copy, Debug, PartialEq, Eq, Structural)]
pub struct PowerUpBag {
    pub jump_boost: Option<CollectedPowerUp>,
    pub speed_boost: Option<CollectedPowerUp>,
    pub coins2x: Option<CollectedPowerUp>,
    pub damage2x: Option<CollectedPowerUp>,
}

/// Drops a power-up whose time is over.
pub open spec fn keep_unexpired(p: Option<CollectedPowerUp>, now: u64) -> Option<CollectedPowerUp> {
    match p {
        Some(c) => if c.expired_spec(now) {
            None
        } else {
            p
        },
        None => None,
    }
}

fn expire_one(p: Option<CollectedPowerUp>, now: u64) -> (r: Option<CollectedPowerUp>)
    ensures
        r == keep_unexpired(p, now),
{
    match p {
        Some(c) => if (c.start as u128) + (c.duration as u128) < now as u128 {
            None
        } else {
            p
        },
        None => None,
    }
}

impl PowerUpBag {
    pub open spec fn get_spec(self, kind: PlayerPowerUp) -> Option<CollectedPowerUp> {
        match kind {
            PlayerPowerUp::JumpBoost => self.jump_boost,
            PlayerPowerUp::SpeedBoost => self.speed_boost,
            PlayerPowerUp::Coins2x => self.coins2x,
            PlayerPowerUp::Damage2x => self.damage2x,
        }
    }

    pub open spec fn set_spec(self, kind: PlayerPowerUp, v: Option<CollectedPowerUp>) -> PowerUpBag {
        match kind {
            PlayerPowerUp::JumpBoost => PowerUpBag { jump_boost: v, ..self },
            PlayerPowerUp::SpeedBoost => PowerUpBag { speed_boost: v, ..self },
            PlayerPowerUp::Coins2x => PowerUpBag { coins2x: v, ..self },
            PlayerPowerUp::Damage2x => PowerUpBag { damage2x: v, ..self },
        }
    }

    /// The bag without the power-ups whose time is over at `now`.
    pub open spec fn expired_removed(self, now: u64) -> PowerUpBag {
        PowerUpBag {
            jump_boost: keep_unexpired(self.jump_boost, now),
            speed_boost: keep_unexpired(self.speed_boost, now),
            coins2x: keep_unexpired(self.coins2x, now),
            damage2x: keep_unexpired(self.damage2x, now),
        }
    }

    pub fn empty() -> (r: PowerUpBag)
        ensures
            r == (PowerUpBag { jump_boost: None, speed_boost: None, coins2x: None, damage2x: None }),
    {
        PowerUpBag { jump_boost: None, speed_boost: None, coins2x: None, damage2x: None }
    }

    pub fn get(&self, kind: PlayerPowerUp) -> (r: Option<CollectedPowerUp>)
        ensures
            r == self.get_spec(kind),
    {
        match kind {
            PlayerPowerUp::JumpBoost => self.jump_boost,
            PlayerPowerUp::SpeedBoost => self.speed_boost,
            PlayerPowerUp::Coins2x => self.coins2x,
            PlayerPowerUp::Damage2x => self.damage2x,
        }
    }

    pub fn contains(&self, kind: PlayerPowerUp) -> (r: bool)
        ensures
            r == self.get_spec(kind).is_some(),
    {
        self.get(kind).is_some()
    }

    pub fn set(&mut self, kind: PlayerPowerUp, v: Option<CollectedPowerUp>)
        ensures
            *final(self) == old(self).set_spec(kind, v),
    {
        match kind {
            PlayerPowerUp::JumpBoost => self.jump_boost = v,
            PlayerPowerUp::SpeedBoost => self.speed_boost = v,
            PlayerPowerUp::Coins2x => self.coins2x = v,
            PlayerPowerUp::Damage2x => self.damage2x = v,
        }
    }

    /// Removes every power-up whose `start + duration` lies before `now`.
    pub fn remove_expired(&mut self, now: u64)
        ensures
            *final(self) == old(self).expired_removed(now),
    {
        self.jump_boost = expire_one(self.jump_boost, now);
        self.speed_boost = expire_one(self.speed_boost, now);
        self.coins2x = expire_one(self.coins2x, now);
        self.damage2x = expire_one(self.damage2x, now);
    }
}

/// The player's timed flags and the ground latch.
#[derive(Clone, Copy, Debug, PartialEq, Eq, Structural)]
pub struct PlayerTriggers {
    pub damage_overlay: Timer,
    pub damage_cooldown: Timer,
    pub shoot_timeout: Timer,
    /// Latched "standing on something"; cleared only after the player has been in
    /// the air without a break for longer than the latch time, or by a jump.
    pub on_ground: bool,
    /// When the player last stood on something, in milliseconds.
    pub last_grounded: u64,
}

/// What the physics backend reports around the player at the start of a frame.
#[derive(Clone, Copy, Debug, PartialEq, Eq, Structural)]
pub struct PlayerSenses {
    /// A solid lies one pixel below.
    pub on_ground: bool,
    /// A solid lies one pixel above.
    pub sealing_hit: bool,
}

/// Movement keys held this frame.
#[derive(Clone, Copy, Debug, PartialEq, Eq, Structural)]
pub struct PlayerInput {
    pub right: bool,
    pub left: bool,
    pub jump: bool,
}

/// A shot requested this frame.
#[derive(Clone, Copy, Debug, PartialEq, Eq, Structural)]
pub enum ShootInput {
    Idle,
    /// Toward a target, with the velocity already aimed.
    Aim(Vec2i),
    Left,
    Right,
}

/// The player.
#[derive(Clone, Copy, Debug, PartialEq, Eq, Structural)]
pub struct Player {
    pub pos: Vec2i,
    pub health: i32,
    pub kills: u32,
    pub coins: u32,
    /// Total damage the player has dealt.
    pub total_damage: u64,
    /// Total damage the player has received.
    pub total_damage_received: u64,
    /// Drawn tinted red while set.
    pub damage_flash: bool,
    pub width: i32,
    pub height: i32,
    /// 0: left, 1: right, 2: straight.
    pub state: i8,
    pub collider_new: Collider,
    /// Velocity in pixels per second.
    pub speed: Vec2i,
    pub triggers: PlayerTriggers,
    pub power_ups: PowerUpBag,
}

/// `a + b`, held to the range of `u64`.
pub open spec fn sat_add_u64(a: int, b: int) -> int {
    if a + b > u64::MAX {
        u64::MAX as int
    } else {
        a + b
    }
}

/// `a + 1`, held to the range of `u32`.
pub open spec fn sat_inc_u32(a: int) -> int {
    if a + 1 > u32::MAX {
        u32::MAX as int
    } else {
        a + 1
    }
}

/// Health after losing `amount` (gaining, if negative), never below 0.
pub open spec fn health_after(health: int, amount: int) -> int {
    if health - amount < 0 {
        0
    } else if health - amount > i32::MAX {
        i32::MAX as int
    } else {
        health - amount
    }
}

/// `j` is the first index below `n` at which `hit` holds.
pub open spec fn is_first_hit(j: int, n: int, hit: spec_fn(int) -> bool) -> bool {
    0 <= j < n && hit(j) && forall|k: int| 0 <= k < j ==> !#[trigger] hit(k)
}

/// The first index below `n` at which `hit` holds, where there is one.
pub open spec fn first_hit(n: int, hit: spec_fn(int) -> bool) -> int {
    choose|j: int| is_first_hit(j, n, hit)
}

pub proof fn lemma_first_hit_unique(j: int, n: int, hit: spec_fn(int) -> bool)
    requires
        is_first_hit(j, n, hit),
    ensures
        first_hit(n, hit) == j,
{
    let f = first_hit(n, hit);
    assert(is_first_hit(f, n, hit));
    if f < j {
        assert(!hit(f));
    }
    if j < f {
        assert(!hit(j));
    }
}

impl Player {
    pub open spec fn wf(self) -> bool {
        0 <= self.health && self.collider_new.rect.wf()
    }

    /// Whether a hit at `now` falls in the invulnerability window of the last one.
    pub open spec fn in_cooldown(self, now: u64) -> bool {
        self.triggers.damage_cooldown.running_spec(DAMAGE_COOLDOWN_MS, now)
    }

    /// The player after `damage(amount)` at `now`.
    pub open spec fn after_damage(self, amount: i32, now: u64) -> Player {
        if self.in_cooldown(now) {
            self
        } else {
            Player {
                health: health_after(self.health as int, amount as int) as i32,
                total_damage_received: sat_add_u64(
                    self.total_damage_received as int,
                    if amount > 0 {
                        amount as int
                    } else {
                        0
                    },
                ) as u64,
                triggers: PlayerTriggers {
                    damage_overlay: Timer::Active { since: now },
                    damage_cooldown: Timer::Active { since: now },
                    ..self.triggers
                },
                ..self
            }
        }
    }

    /// A fresh player standing at `pos`.
    pub open spec fn fresh(width: i32, height: i32, pos: Vec2i, state: i8) -> Player {
        Player {
            pos,
            health: PLAYER_HEALTH,
            kills: 0,
            coins: 0,
            total_damage: 0,
            total_damage_received: 0,
            damage_flash: false,
            width,
            height,
            state,
            collider_new: Collider::make(ColliderType::Actor, pos, width, height, Vec2i { x: 0, y: 0 }),
            speed: Vec2i { x: 0, y: 0 },
            triggers: PlayerTriggers {
                damage_overlay: Timer::Inactive,
                damage_cooldown: Timer::Inactive,
                shoot_timeout: Timer::Inactive,
                on_ground: true,
                last_grounded: 0,
            },
            power_ups: PowerUpBag { jump_boost: None, speed_boost: None, coins2x: None, damage2x: None },
        }
    }

    /// A fresh player standing at `pos`: full health, nothing counted, no flag set,
    /// no power-up.
    pub fn new(width: i32, height: i32, pos: Vec2i, state: i8) -> (r: Player)
        requires
            0 <= width,
            0 <= height,
        ensures
            r.wf(),
            r == Player::fresh(width, height, pos, state),
    {
        Player {
            pos,
            health: PLAYER_HEALTH,
            kills: 0,
            coins: 0,
            total_damage: 0,
            total_damage_received: 0,
            damage_flash: false,
            width,
            height,
            state,
            collider_new: Collider::new_actor(pos, width, height, vec2i(0, 0)),
            speed: vec2i(0, 0),
            triggers: PlayerTriggers {
                damage_overlay: Timer::Inactive,
                damage_cooldown: Timer::Inactive,
                shoot_timeout: Timer::Inactive,
                on_ground: true,
                last_grounded: 0,
            },
            power_ups: PowerUpBag::empty(),
        }
    }

    /// Whether one of the player's flags is set.
    pub fn trigger_active(&self, trigger: PlayerTrigger) -> (r: bool)
        ensures
            r == match trigger {
                PlayerTrigger::DamageOverlay => self.triggers.damage_overlay is Active,
                PlayerTrigger::DamageCooldown => self.triggers.damage_cooldown is Active,
                PlayerTrigger::ShootTimeout => self.triggers.shoot_timeout is Active,
                PlayerTrigger::OnGround => self.triggers.on_ground,
            },
    {
        match trigger {
            PlayerTrigger::DamageOverlay => self.triggers.damage_overlay.is_active(),
            PlayerTrigger::DamageCooldown => self.triggers.damage_cooldown.is_active(),
            PlayerTrigger::ShootTimeout => self.triggers.shoot_timeout.is_active(),
            PlayerTrigger::OnGround => self.triggers.on_ground,
        }
    }

    /// The single entry point for damage. Outside the cooldown window the player
    /// loses `amount` health (never going below 0), the received total grows by it,
    /// and both the damage flash and the cooldown restart at `now`. Inside the
    /// window nothing changes.
    pub fn damage(&mut self, amount: i32, now: u64)
        ensures
            *final(self) == old(self).after_damage(amount, now),
            old(self).health >= 0 ==> final(self).health >= 0,
    {
        if !self.triggers.damage_cooldown.running(DAMAGE_COOLDOWN_MS, now) {
            let h: i64 = self.health as i64 - amount as i64;
            self.health = if h < 0 {
                0
            } else if h > i32::MAX as i64 {
                i32::MAX
            } else {
                h as i32
            };
            let gained: u64 = if amount > 0 {
                amount as u64
            } else {
                0
            };
            self.total_damage_received = self.total_damage_received.saturating_add(gained);
            self.triggers.damage_overlay = Timer::Active { since: now };
            self.triggers.damage_cooldown = Timer::Active { since: now };
        }
    }
}

/// A second hit at the same instant changes nothing.
pub proof fn lemma_damage_same_instant(p: Player, a: i32, b: i32, now: u64)
    ensures
        p.after_damage(a, now).after_damage(b, now) == p.after_damage(a, now),
{
}

/// Three hits at `t1 <= t2 <= t3`: a second hit no later than the cooldown after
/// the first changes nothing at all, and a third hit after the cooldown has passed
/// changes health again.
pub proof fn lemma_damage_cooldown(p: Player, a: i32, b: i32, c: i32, t1: u64, t2: u64, t3: u64)
    requires
        t1 <= t2 <= t3,
        !p.in_cooldown(t1),
    ensures
        p.after_damage(a, t1).health == health_after(p.health as int, a as int),
        t2 <= t1 + DAMAGE_COOLDOWN_MS ==> p.after_damage(a, t1).after_damage(b, t2) == p.after_damage(a, t1),
        t2 <= t1 + DAMAGE_COOLDOWN_MS && t3 > t1 + DAMAGE_COOLDOWN_MS ==> p.after_damage(a, t1).after_damage(
            b,
            t2,
        ).after_damage(c, t3).health == health_after(health_after(p.health as int, a as int), c as int),
{
}

/// Health never drops below 0, however large the hit.
pub proof fn lemma_health_floor(p: Player, a: i32, now: u64)
    requires
        p.health >= 0,
    ensures
        p.after_damage(a, now).health >= 0,
        !p.in_cooldown(now) && a as int >= p.health ==> p.after_damage(a, now).health == 0,
{
}

} // verus!

verus! {

impl Player {
    /// The player after the control step of a frame (before movement is committed).
    pub open spec fn after_control(self, senses: PlayerSenses, input: PlayerInput, now: u64, dt_ms: u32, scale_milli: u16) -> Player {
        let s = scale_milli as int;
        let y1 = if senses.sealing_hit {
            frame_step_spec(scaled_spec(CEILING_BOUNCE as int, s), dt_ms as int)
        } else {
            self.speed.y as int
        };
        let t = self.triggers;
        let y2 = if !senses.on_ground {
            clamp_i32(y1 + frame_step_spec(scaled_spec(GRAVITY as int, s), dt_ms as int))
        } else {
            0
        };
        let latch = if !senses.on_ground {
            if t.last_grounded + ON_GROUND_LATCH_MS < now {
                false
            } else {
                t.on_ground
            }
        } else {
            true
        };
        let since = if senses.on_ground {
            now
        } else {
            t.last_grounded
        };
        let base = scaled_spec(WALK_SPEED as int, s);
        let walk = if self.power_ups.speed_boost is Some { 2 * base } else { base };
        let x = if input.right { walk } else if input.left { -walk } else { 0 };
        let state: i8 = if input.right { 1 } else if input.left { 0 } else { 2 };
        let jumps = input.jump && latch;
        let y3 = if jumps {
            -scaled_spec(
                if self.power_ups.jump_boost is Some { BOOSTED_JUMP_SPEED as int } else { JUMP_SPEED as int },
                s,
            )
        } else {
            y2
        };
        Player {
            speed: Vec2i { x: x as i32, y: y3 as i32 },
            state,
            triggers: PlayerTriggers { on_ground: latch && !jumps, last_grounded: since, ..t },
            ..self
        }
    }

    /// The control step of a frame. From what the physics backend reports (ground one
    /// pixel below, ceiling one pixel above) and the keys held: a ceiling bounce
    /// turns the vertical speed into a small downward one; in the air gravity adds up
    /// and the ground latch clears once the last ground contact lies more than the
    /// latch time back, on the ground the vertical speed is 0, the latch is set and
    /// the contact time is `now`; right or left sets the walking speed (doubled under
    /// a speed boost) and the facing; jump, while latched, sets the jump speed (higher
    /// under a jump boost) and clears the latch. Returns the movement to commit,
    /// horizontal first.
    pub fn control(&mut self, senses: PlayerSenses, input: PlayerInput, now: u64, dt_ms: u32, scale_milli: u16) -> (motion: Vec2i)
        ensures
            *final(self) == old(self).after_control(senses, input, now, dt_ms, scale_milli),
            motion == (Vec2i {
                x: frame_step_spec(final(self).speed.x as int, dt_ms as int) as i32,
                y: frame_step_spec(final(self).speed.y as int, dt_ms as int) as i32,
            }),
    {
        if senses.sealing_hit {
            self.speed.y = frame_step(scaled(CEILING_BOUNCE, scale_milli), dt_ms);
        }
        if !senses.on_ground {
            let fall = frame_step(scaled(GRAVITY, scale_milli), dt_ms);
            self.speed.y = add_clamped(self.speed.y, fall as i64);
            if (self.triggers.last_grounded as u128) + (ON_GROUND_LATCH_MS as u128) < now as u128 {
                self.triggers.on_ground = false;
            }
        } else {
            self.triggers.on_ground = true;
            self.triggers.last_grounded = now;
            self.speed.y = 0;
        }
        let base = scaled(WALK_SPEED, scale_milli);
        let walk = if self.power_ups.contains(PlayerPowerUp::SpeedBoost) {
            2 * base
        } else {
            base
        };
        if input.right {
            self.speed.x = walk;
            self.state = 1;
        } else if input.left {
            self.speed.x = -walk;
            self.state = 0;
        } else {
            self.speed.x = 0;
            self.state = 2;
        }
        if input.jump && self.triggers.on_ground {
            self.triggers.on_ground = false;
            self.speed.y = if self.power_ups.contains(PlayerPowerUp::JumpBoost) {
                -scaled(BOOSTED_JUMP_SPEED, scale_milli)
            } else {
                -scaled(JUMP_SPEED, scale_milli)
            };
        }
        vec2i(frame_step(self.speed.x, dt_ms), frame_step(self.speed.y, dt_ms))
    }

    /// Takes the position the physics backend resolved for the player and carries
    /// the gameplay collider along.
    pub fn perform_move(&mut self, pos: Vec2i)
        ensures
            *final(self) == (Player {
                pos,
                collider_new: Collider {
                    rect: Rect { x: pos.x, y: pos.y, ..old(self).collider_new.rect },
                    ..old(self).collider_new
                },
                ..*old(self)
            }),
    {
        self.pos = pos;
        self.collider_new.change_pos(pos);
    }
}

} // verus!

verus! {

/// What the player's frame produced for the level: whether health ran out, and the
/// shot fired, if any.
#[derive(Clone, Copy, Debug, PartialEq, Eq, Structural)]
pub struct PlayerTickOutcome {
    pub game_over: bool,
    pub shot: Option<Projectile>,
}

impl Player {
    /// An enemy whose own cell the player touches.
    pub open spec fn touched_by(self, enemies: Seq<Enemy>) -> spec_fn(int) -> bool {
        |i: int| self.collider_new.rect.overlaps_spec(enemies[i].hit_rect())
    }

    /// A shot the player did not fire, overlapping the player. The player's own shots
    /// never hurt the player.
    pub open spec fn hit_by(self, projectiles: Seq<Projectile>) -> spec_fn(int) -> bool {
        |i: int|
            self.collider_new.rect.overlaps_spec(projectiles[i].collider.rect) && projectiles[i].origin
                != ProjectileOrigin::Player
    }

    pub open spec fn is_touched(self, enemies: Seq<Enemy>) -> bool {
        exists|i: int| 0 <= i < enemies.len() && #[trigger] self.touched_by(enemies)(i)
    }

    pub open spec fn is_hit(self, projectiles: Seq<Projectile>) -> bool {
        exists|i: int| 0 <= i < projectiles.len() && #[trigger] self.hit_by(projectiles)(i)
    }

    /// The player after this frame's hits: the first touching enemy's damage if
    /// any enemy touches, else the first hostile shot's, else nothing. Further
    /// hits in the same frame fall in the cooldown the first one starts.
    pub open spec fn after_hits(self, enemies: Seq<Enemy>, projectiles: Seq<Projectile>, now: u64) -> Player {
        if self.is_touched(enemies) {
            self.after_damage(-enemies[first_hit(enemies.len() as int, self.touched_by(enemies))].damage as i32, now)
        } else if self.is_hit(projectiles) {
            self.after_damage(-projectiles[first_hit(projectiles.len() as int, self.hit_by(projectiles))].damage as i32, now)
        } else {
            self
        }
    }

    /// Damage intake for one frame from touching enemies and hostile shots.
    pub fn take_hits(&mut self, enemies: &Vec<Enemy>, projectiles: &Vec<Projectile>, now: u64)
        requires
            forall|i: int| 0 <= i < enemies@.len() ==> #[trigger] enemies@[i].wf(),
        ensures
            *final(self) == old(self).after_hits(enemies@, projectiles@, now),
    {
        let mut i: usize = 0;
        while i < enemies.len()
            invariant
                0 <= i <= enemies@.len(),
                *self == *old(self),
                forall|j: int| 0 <= j < enemies@.len() ==> #[trigger] enemies@[j].wf(),
                forall|k: int| 0 <= k < i ==> !#[trigger] self.touched_by(enemies@)(k),
            decreases enemies@.len() - i,
        {
            assert(enemies@[i as int].wf());
            let h = enemies[i].hit_rect_exec();
            if self.collider_new.rect.overlaps(&h) {
                proof {
                    assert(self.touched_by(enemies@)(i as int));
                    lemma_first_hit_unique(i as int, enemies@.len() as int, self.touched_by(enemies@));
                }
                self.damage(-(enemies[i].damage as i32), now);
                return;
            }
            i = i + 1;
        }
        let mut j: usize = 0;
        while j < projectiles.len()
            invariant
                0 <= j <= projectiles@.len(),
                *self == *old(self),
                !self.is_touched(enemies@),
                forall|k: int| 0 <= k < j ==> !#[trigger] self.hit_by(projectiles@)(k),
            decreases projectiles@.len() - j,
        {
            if self.collider_new.rect.overlaps(&projectiles[j].collider.rect)
                && projectiles[j].origin != ProjectileOrigin::Player {
                proof {
                    assert(self.hit_by(projectiles@)(j as int));
                    lemma_first_hit_unique(j as int, projectiles@.len() as int, self.hit_by(projectiles@));
                }
                self.damage(-(projectiles[j].damage as i32), now);
                return;
            }
            j = j + 1;
        }
    }

    /// The damage flash: shown while the overlay runs, ended once its time is over.
    pub open spec fn after_overlay(self, now: u64) -> Player {
        if self.triggers.damage_overlay is Active {
            let done = self.triggers.damage_overlay.elapsed_spec(DAMAGE_OVERLAY_MS, now);
            Player {
                damage_flash: !done,
                triggers: PlayerTriggers {
                    damage_overlay: if done { Timer::Inactive } else { self.triggers.damage_overlay },
                    ..self.triggers
                },
                ..self
            }
        } else {
            self
        }
    }

    fn overlay_step(&mut self, now: u64)
        ensures
            *final(self) == old(self).after_overlay(now),
    {
        if self.triggers.damage_overlay.is_active() {
            self.damage_flash = true;
            if self.triggers.damage_overlay.elapsed(DAMAGE_OVERLAY_MS, now) {
                self.triggers.damage_overlay = Timer::Inactive;
                self.damage_flash = false;
            }
        }
    }

    /// The shot the player fires at `now` with velocity `speed`: square, centred on
    /// the player, stronger under a damage boost.
    pub open spec fn shot_spec(self, speed: Vec2i, now: u64, scale_milli: u16) -> Projectile {
        let size = scaled_spec(SHOT_SIZE as int, scale_milli as int) as i32;
        let x = clamp_i32(self.pos.x + div_trunc(self.width as int, 2) - size / 2) as i32;
        let y = clamp_i32(self.pos.y + div_trunc(self.height as int, 2) - size / 2) as i32;
        Projectile {
            active: true,
            deletable: false,
            pos: Vec2i { x, y },
            size: Vec2i { x: size, y: size },
            start_time: now,
            max_time: SHOT_TIME_MS,
            collider: Collider::make(ColliderType::Projectile, Vec2i { x, y }, size, size, Vec2i { x: 0, y: 0 }),
            damage: if self.power_ups.damage2x is Some { BOOSTED_SHOT_DAMAGE } else { SHOT_DAMAGE },
            texture_key: TextureKey::Projectile0,
            origin: ProjectileOrigin::Player,
            speed,
        }
    }

    /// Velocity of a requested shot, if one was requested.
    pub open spec fn shot_velocity(shoot: ShootInput, scale_milli: u16) -> Option<Vec2i> {
        let s = scaled_spec(SHOT_SPEED as int, scale_milli as int);
        match shoot {
            ShootInput::Idle => None,
            ShootInput::Aim(v) => Some(v),
            ShootInput::Left => Some(Vec2i { x: -s as i32, y: 0 }),
            ShootInput::Right => Some(Vec2i { x: s as i32, y: 0 }),
        }
    }

    /// Shooting: without a running shot timeout a requested shot is fired and the
    /// timeout starts at `now`; with one, it ends once its time is over.
    pub open spec fn after_shoot(self, shoot: ShootInput, now: u64, scale_milli: u16) -> (Player, Option<Projectile>) {
        if !(self.triggers.shoot_timeout is Active) {
            match Player::shot_velocity(shoot, scale_milli) {
                Some(v) => (
                    Player {
                        triggers: PlayerTriggers { shoot_timeout: Timer::Active { since: now }, ..self.triggers },
                        ..self
                    },
                    Some(self.shot_spec(v, now, scale_milli)),
                ),
                None => (self, None),
            }
        } else if self.triggers.shoot_timeout.elapsed_spec(SHOOT_TIMEOUT_MS, now) {
            (Player { triggers: PlayerTriggers { shoot_timeout: Timer::Inactive, ..self.triggers }, ..self }, None)
        } else {
            (self, None)
        }
    }

    fn shoot_step(&mut self, shoot: ShootInput, now: u64, scale_milli: u16) -> (r: Option<Projectile>)
        ensures
            (*final(self), r) == old(self).after_shoot(shoot, now, scale_milli),
    {
        if !self.triggers.shoot_timeout.is_active() {
            let s = scaled(SHOT_SPEED, scale_milli);
            let v = match shoot {
                ShootInput::Idle => None,
                ShootInput::Aim(v) => Some(v),
                ShootInput::Left => Some(vec2i(-s, 0)),
                ShootInput::Right => Some(vec2i(s, 0)),
            };
            match v {
                Some(v) => {
                    let size = scaled(SHOT_SIZE, scale_milli);
                    let x = add_clamped(self.pos.x, (self.width / 2 - size / 2) as i64);
                    let y = add_clamped(self.pos.y, (self.height / 2 - size / 2) as i64);
                    let damage = if self.power_ups.contains(PlayerPowerUp::Damage2x) {
                        BOOSTED_SHOT_DAMAGE
                    } else {
                        SHOT_DAMAGE
                    };
                    let p = Projectile::new(
                        vec2i(x, y),
                        vec2i(size, size),
                        damage,
                        SHOT_TIME_MS,
                        TextureKey::Projectile0,
                        ProjectileOrigin::Player,
                        v,
                        now,
                    );
                    self.triggers.shoot_timeout = Timer::Active { since: now };
                    Some(p)
                },
                None => None,
            }
        } else {
            if self.triggers.shoot_timeout.elapsed(SHOOT_TIMEOUT_MS, now) {
                self.triggers.shoot_timeout = Timer::Inactive;
            }
            None
        }
    }

    /// The player after the tick of a frame, and the shot fired.
    pub open spec fn tick_spec(self, enemies: Seq<Enemy>, projectiles: Seq<Projectile>, shoot: ShootInput, now: u64, scale_milli: u16) -> (Player, Option<Projectile>) {
        let p = self.after_hits(enemies, projectiles, now).after_overlay(now);
        let (q, shot) = p.after_shoot(shoot, now, scale_milli);
        (Player { power_ups: q.power_ups.expired_removed(now), ..q }, shot)
    }

    /// The player's frame after movement: hits from touching enemies and hostile
    /// shots, the damage flash, game over at 0 health, shooting, and the expiry of
    /// power-ups whose `start + duration` lies before `now`.
    pub fn tick(&mut self, enemies: &Vec<Enemy>, projectiles: &Vec<Projectile>, shoot: ShootInput, now: u64, scale_milli: u16) -> (r: PlayerTickOutcome)
        requires
            forall|i: int| 0 <= i < enemies@.len() ==> #[trigger] enemies@[i].wf(),
        ensures
            *final(self) == old(self).tick_spec(enemies@, projectiles@, shoot, now, scale_milli).0,
            r.shot == old(self).tick_spec(enemies@, projectiles@, shoot, now, scale_milli).1,
            r.game_over == (old(self).after_hits(enemies@, projectiles@, now).health == 0),
    {
        self.take_hits(enemies, projectiles, now);
        self.overlay_step(now);
        let game_over = self.health == 0;
        let shot = self.shoot_step(shoot, now, scale_milli);
        self.power_ups.remove_expired(now);
        PlayerTickOutcome { game_over, shot }
    }
}

} // verus!

verus! {

/// The player's own shots never hurt the player: with no enemy touching, a frame
/// in which only such shots overlap the player leaves the player unchanged.
pub proof fn lemma_friendly_fire(p: Player, enemies: Seq<Enemy>, projectiles: Seq<Projectile>, now: u64)
    requires
        !p.is_touched(enemies),
        forall|i: int|
            0 <= i < projectiles.len() && p.collider_new.rect.overlaps_spec(#[trigger] projectiles[i].collider.rect)
                ==> projectiles[i].origin == ProjectileOrigin::Player,
    ensures
        p.after_hits(enemies, projectiles, now) == p,
{
    assert forall|i: int| 0 <= i < projectiles.len() implies !#[trigger] p.hit_by(projectiles)(i) by {
        if p.collider_new.rect.overlaps_spec(projectiles[i].collider.rect) {
        }
    }
}

/// A cannon's shot overlapping the player does hurt: with no enemy touching, the
/// first such shot is taken as a hit.
pub proof fn lemma_cannon_shot_hurts(p: Player, enemies: Seq<Enemy>, projectiles: Seq<Projectile>, j: int, now: u64)
    requires
        !p.is_touched(enemies),
        0 <= j < projectiles.len(),
        projectiles[j].origin == ProjectileOrigin::Canon,
        p.collider_new.rect.overlaps_spec(projectiles[j].collider.rect),
        forall|k: int| 0 <= k < j ==> !#[trigger] p.hit_by(projectiles)(k),
    ensures
        p.after_hits(enemies, projectiles, now) == p.after_damage(-projectiles[j].damage as i32, now),
{
    assert(p.hit_by(projectiles)(j));
    lemma_first_hit_unique(j, projectiles.len() as int, p.hit_by(projectiles));
}

} // verus!

verus! {

/// A cannon's shot overlapping a player outside the cooldown, with no enemy
/// touching, costs the player its damage `d` (never below 0), adds `d` to the
/// received total and starts the cooldown, within the player's frame.
pub proof fn lemma_cannon_shot_costs_health(
    p: Player,
    enemies: Seq<Enemy>,
    projectiles: Seq<Projectile>,
    j: int,
    d: i32,
    shoot: ShootInput,
    now: u64,
    scale_milli: u16,
)
    requires
        !p.is_touched(enemies),
        !p.in_cooldown(now),
        0 <= j < projectiles.len(),
        projectiles[j].origin == ProjectileOrigin::Canon,
        projectiles[j].damage == -d,
        d > 0,
        p.collider_new.rect.overlaps_spec(projectiles[j].collider.rect),
        forall|k: int| 0 <= k < j ==> !#[trigger] p.hit_by(projectiles)(k),
        p.total_damage_received + d <= u64::MAX,
    ensures
        ({
            let q = p.tick_spec(enemies, projectiles, shoot, now, scale_milli).0;
            &&& q.health == health_after(p.health as int, d as int)
            &&& q.total_damage_received == p.total_damage_received + d
            &&& q.triggers.damage_cooldown == (Timer::Active { since: now })
        }),
{
    lemma_cannon_shot_hurts(p, enemies, projectiles, j, now);
}

} // verus!
