use vstd::prelude::*;
use crate::geometry::{Vec2i, vec2i, add_clamped, clamp_i32};
use crate::collider::{Collider, ColliderType};
use crate::enums::{Direction, TextureKey};
use crate::projectile::{Projectile, ProjectileOrigin};

verus! {

/// A fixed turret that fires along one direction at a steady interval.
#[derive(Clone, Copy, Debug, PartialEq, Eq, Structural)]
pub struct Cannon {
    pub pos: Vec2i,
    pub size: Vec2i,
    /// Milliseconds between two shots.
    pub speed: u64,
    pub direction: Direction,
    /// When it last fired, in milliseconds.
    pub last_shoot: u64,
    /// Speed of its shots, pixels per second.
    pub projectile_speed: i32,
    /// How long its shots fly, in milliseconds.
    pub projectile_time: u64,
    pub collider: Collider,
    pub texture_key: TextureKey,
    pub projectile_texture_key: TextureKey,
    /// Health change of its shots: negative values hurt.
    pub damage: i16,
}

/// Velocity of a shot of speed `s` along `d`.
pub open spec fn aim(d: Direction, s: int) -> Vec2i {
    match d {
        Direction::Right => Vec2i { x: s as i32, y: 0 },
        Direction::Left => Vec2i { x: -s as i32, y: 0 },
        Direction::Up => Vec2i { x: 0, y: -s as i32 },
        Direction::Down => Vec2i { x: 0, y: s as i32 },
    }
}

impl Cannon {
    pub open spec fn wf(self) -> bool {
        0 <= self.size.x && 0 <= self.size.y && 0 <= self.projectile_speed
    }

    /// Whether the cannon fires at `now`: `now >= last_shoot + speed`.
    pub open spec fn due(self, now: u64) -> bool {
        now >= self.last_shoot + self.speed
    }

    /// The shot the cannon fires at `now`: half its size, centred on it.
    pub open spec fn shot_spec(self, now: u64) -> Projectile {
        let half = Vec2i { x: (self.size.x / 2) as i32, y: (self.size.y / 2) as i32 };
        let x = clamp_i32(self.pos.x + half.x - half.x / 2) as i32;
        let y = clamp_i32(self.pos.y + half.y - half.y / 2) as i32;
        Projectile {
            active: true,
            deletable: false,
            pos: Vec2i { x, y },
            size: half,
            start_time: now,
            max_time: self.projectile_time,
            collider: Collider::make(ColliderType::Projectile, Vec2i { x, y }, half.x, half.y, Vec2i { x: 0, y: 0 }),
            damage: self.damage,
            texture_key: self.projectile_texture_key,
            origin: ProjectileOrigin::Canon,
            speed: aim(self.direction, self.projectile_speed as int),
        }
    }

    /// A cannon whose first shot is due `offset` milliseconds after `now`, so that
    /// cannons on the same interval can fire out of step.
    pub fn new(
        pos: Vec2i,
        size: Vec2i,
        speed: u64,
        offset: u64,
        direction: Direction,
        projectile_speed: i32,
        projectile_time: u64,
        texture_key: TextureKey,
        projectile_texture_key: TextureKey,
        damage: i16,
        now: u64,
    ) -> (r: Cannon)
        requires
            0 <= size.x,
            0 <= size.y,
            0 <= projectile_speed,
        ensures
            r.wf(),
            r.pos == pos && r.size == size && r.speed == speed && r.direction == direction,
            r.last_shoot == if now + offset > u64::MAX { u64::MAX as int } else { now + offset },
            r.projectile_speed == projectile_speed && r.projectile_time == projectile_time,
            r.texture_key == texture_key && r.projectile_texture_key == projectile_texture_key,
            r.damage == damage,
            r.collider == Collider::make(ColliderType::Solid, pos, size.x, size.y, Vec2i { x: 0, y: 0 }),
    {
        Cannon {
            pos,
            size,
            speed,
            direction,
            last_shoot: now.saturating_add(offset),
            projectile_speed,
            projectile_time,
            collider: Collider::new_solid(pos, size.x, size.y, vec2i(0, 0)),
            texture_key,
            projectile_texture_key,
            damage,
        }
    }

    /// Fires one shot onto `projectiles` when due, and restarts the interval at `now`.
    pub fn tick(&mut self, projectiles: &mut Vec<Projectile>, now: u64)
        requires
            old(self).wf(),
        ensures
            old(self).due(now) ==> final(projectiles)@ == old(projectiles)@.push(
                old(self).shot_spec(now),
            ) && *final(self) == (Cannon { last_shoot: now, ..*old(self) }),
            !old(self).due(now) ==> final(projectiles)@ == old(projectiles)@ && *final(self)
                == *old(self),
            final(self).wf(),
    {
        if now as u128 >= (self.last_shoot as u128) + (self.speed as u128) {
            let half = vec2i(self.size.x / 2, self.size.y / 2);
            let x = add_clamped(self.pos.x, (half.x - half.x / 2) as i64);
            let y = add_clamped(self.pos.y, (half.y - half.y / 2) as i64);
            let s = self.projectile_speed;
            let velocity = match self.direction {
                Direction::Right => vec2i(s, 0),
                Direction::Left => vec2i(-s, 0),
                Direction::Up => vec2i(0, -s),
                Direction::Down => vec2i(0, s),
            };
            let p = Projectile::new(
                vec2i(x, y),
                half,
                self.damage,
                self.projectile_time,
                self.projectile_texture_key,
                ProjectileOrigin::Canon,
                velocity,
                now,
            );
            projectiles.push(p);
            self.last_shoot = now;
        }
    }
}

} // verus!
