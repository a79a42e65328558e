use vstd::prelude::*;
use crate::geometry::{Rect, Vec2i, vec2i, add_clamped, frame_step, frame_step_spec, clamp_i32};
use crate::collider::{Collider, lemma_hit_list_empty};
use crate::enums::TextureKey;
use crate::enemy::Enemy;
use crate::level::Platform;
use crate::player::Player;

verus! {

/// Who fired a projectile.
#[derive(Clone, Copy, Debug, PartialEq, Eq, Structural, PartialOrd, Ord)]
pub enum ProjectileOrigin {
    Player,
    Canon,
}

/// A shot flying in a straight line until it hits something or times out.
#[derive(Clone, Copy, Debug, PartialEq, Eq, Structural)]
pub struct Projectile {
    pub active: bool,
    pub deletable: bool,
    pub pos: Vec2i,
    pub size: Vec2i,
    /// When it was fired, in milliseconds.
    pub start_time: u64,
    /// How long it may fly, in milliseconds.
    pub max_time: u64,
    pub collider: Collider,
    /// Health change applied to what it hits: negative values hurt.
    pub damage: i16,
    pub texture_key: TextureKey,
    pub origin: ProjectileOrigin,
    /// Velocity in pixels per second.
    pub speed: Vec2i,
}

/// The projectile's collider overlaps one of the platforms.
pub open spec fn hits_platform(c: Rect, platforms: Seq<Platform>) -> bool {
    exists|i: int| 0 <= i < platforms.len() && c.overlaps_spec(#[trigger] platforms[i].collider_new.rect)
}

/// The projectile's collider overlaps the hit cell of one of the enemies.
pub open spec fn hits_enemy(c: Rect, enemies: Seq<Enemy>) -> bool {
    exists|i: int| 0 <= i < enemies.len() && c.overlaps_spec(#[trigger] enemies[i].hit_rect())
}

impl Projectile {
    /// Whether the flight time is over at `now`: `start_time + max_time < now`.
    pub open spec fn timed_out(self, now: u64) -> bool {
        self.start_time + self.max_time < now
    }

    /// What ends a flight at `now`: a platform, an enemy, the player (for shots that
    /// the player did not fire), or the end of its time.
    pub open spec fn expires(self, platforms: Seq<Platform>, enemies: Seq<Enemy>, player: Player, now: u64) -> bool {
        hits_platform(self.collider.rect, platforms) || hits_enemy(self.collider.rect, enemies) || (
        self.origin != ProjectileOrigin::Player && self.collider.rect.overlaps_spec(
            player.collider_new.rect,
        )) || self.timed_out(now)
    }

    /// The collider covers the projectile, and a projectile is active exactly while
    /// it is not yet deletable.
    pub open spec fn wf(self) -> bool {
        &&& self.collider.rect.w == self.size.x && self.collider.rect.h == self.size.y
        &&& self.collider.rect.x == self.pos.x && self.collider.rect.y == self.pos.y
        &&& 0 <= self.size.x && 0 <= self.size.y
        &&& self.active == !self.deletable
    }

    /// A new active projectile fired at `now`.
    pub fn new(
        pos: Vec2i,
        size: Vec2i,
        damage: i16,
        max_time: u64,
        texture_key: TextureKey,
        origin: ProjectileOrigin,
        speed: Vec2i,
        now: u64,
    ) -> (r: Projectile)
        requires
            0 <= size.x,
            0 <= size.y,
        ensures
            r.wf(),
            r.active && !r.deletable,
            r.pos == pos && r.size == size && r.damage == damage && r.max_time == max_time,
            r.texture_key == texture_key && r.origin == origin && r.speed == speed,
            r.start_time == now,
            r.collider == Collider::make(
                crate::collider::ColliderType::Projectile,
                pos,
                size.x,
                size.y,
                Vec2i { x: 0, y: 0 },
            ),
    {
        let collider = Collider::new_projectile(pos, size.x, size.y, vec2i(0, 0));
        Projectile {
            active: true,
            deletable: false,
            pos,
            size,
            start_time: now,
            max_time,
            collider,
            damage,
            texture_key,
            origin,
            speed,
        }
    }

    /// One frame: the projectile expires (inactive and deletable, unmoved) if it
    /// touches a platform, an enemy, the player when someone else fired it, or its
    /// time is over; otherwise it moves by its velocity over `dt_ms`.
    pub fn tick(
        &mut self,
        platforms: &Vec<Platform>,
        enemies: &Vec<Enemy>,
        player: &Player,
        now: u64,
        dt_ms: u32,
    )
        requires
            forall|i: int| 0 <= i < enemies@.len() ==> #[trigger] enemies@[i].wf(),
        ensures
            old(self).wf() ==> final(self).wf(),
            old(self).expires(platforms@, enemies@, *player, now) ==> *final(self) == (Projectile {
                active: false,
                deletable: true,
                ..*old(self)
            }),
            !old(self).expires(platforms@, enemies@, *player, now) ==> *final(self)
                == old(self).moved(dt_ms),
    {
        let zero = vec2i(0, 0);
        let on_platform = self.collider.collide_check_platform(platforms, zero);
        let on_enemy = self.collider.collide_check_enemy(enemies, zero);
        let on_player = if self.origin != ProjectileOrigin::Player {
            self.collider.touching_player(player)
        } else {
            false
        };
        proof {
            let c = self.collider.rect;
            let hp = |i: int| c.shifted_overlaps_spec(0, 0, platforms@[i].collider_new.rect);
            let he = |i: int| c.shifted_overlaps_spec(0, 0, enemies@[i].hit_rect());
            lemma_hit_list_empty(on_platform@, platforms@.len() as int, hp);
            lemma_hit_list_empty(on_enemy@, enemies@.len() as int, he);
            if hits_platform(c, platforms@) {
                let i = choose|i: int| 0 <= i < platforms@.len() && c.overlaps_spec(#[trigger] platforms@[i].collider_new.rect);
                assert(hp(i));
            }
            if hits_enemy(c, enemies@) {
                let i = choose|i: int| 0 <= i < enemies@.len() && c.overlaps_spec(#[trigger] enemies@[i].hit_rect());
                assert(he(i));
            }
            if on_platform@.len() > 0 {
                let i = on_platform@[0] as int;
                assert(hp(i));
                assert(c.overlaps_spec(platforms@[i].collider_new.rect));
            }
            if on_enemy@.len() > 0 {
                let i = on_enemy@[0] as int;
                assert(he(i));
                assert(c.overlaps_spec(enemies@[i].hit_rect()));
            }
        }
        let colliding = on_platform.len() > 0 || on_enemy.len() > 0 || on_player;
        let timed_out = (self.start_time as u128) + (self.max_time as u128) < now as u128;
        if colliding || timed_out {
            self.active = false;
            self.deletable = true;
        } else {
            self.perform_move(dt_ms);
        }
    }

    /// The projectile after flying for `dt_ms` milliseconds.
    pub open spec fn moved(self, dt_ms: u32) -> Projectile {
        let x = clamp_i32(self.pos.x + frame_step_spec(self.speed.x as int, dt_ms as int)) as i32;
        let y = clamp_i32(self.pos.y + frame_step_spec(self.speed.y as int, dt_ms as int)) as i32;
        Projectile {
            pos: Vec2i { x, y },
            collider: Collider { rect: Rect { x, y, ..self.collider.rect }, ..self.collider },
            ..self
        }
    }

    /// Moves by the velocity over `dt_ms` milliseconds and carries the collider along.
    pub fn perform_move(&mut self, dt_ms: u32)
        ensures
            *final(self) == old(self).moved(dt_ms),
            old(self).wf() ==> final(self).wf(),
    {
        let dx = frame_step(self.speed.x, dt_ms);
        let dy = frame_step(self.speed.y, dt_ms);
        self.pos.x = add_clamped(self.pos.x, dx as i64);
        self.pos.y = add_clamped(self.pos.y, dy as i64);
        let p = self.pos;
        self.collider.change_pos(p);
    }
}

} // verus!

verus! {

/// A projectile that touches nothing expires exactly when its time is over:
/// `start_time + max_time < now`.
pub proof fn lemma_projectile_timeout(p: Projectile, platforms: Seq<Platform>, enemies: Seq<Enemy>, player: Player, now: u64)
    requires
        !hits_platform(p.collider.rect, platforms),
        !hits_enemy(p.collider.rect, enemies),
        !p.collider.rect.overlaps_spec(player.collider_new.rect),
    ensures
        p.expires(platforms, enemies, player, now) == (p.start_time + p.max_time < now),
{
}

/// The player's own shot ends on touching what it may hit, but never on touching
/// the player.
pub proof fn lemma_own_shot_passes_player(p: Projectile, platforms: Seq<Platform>, enemies: Seq<Enemy>, player: Player, now: u64)
    requires
        p.origin == ProjectileOrigin::Player,
        !hits_platform(p.collider.rect, platforms),
        !hits_enemy(p.collider.rect, enemies),
        !p.timed_out(now),
    ensures
        !p.expires(platforms, enemies, player, now),
{
}

} // verus!

verus! {

/// A live projectile that touches nothing and whose time is not over stays live:
/// after its tick it is still active, not deletable, and has moved.
pub proof fn lemma_live_shot_moves(p: Projectile, platforms: Seq<Platform>, enemies: Seq<Enemy>, player: Player, now: u64, dt_ms: u32)
    requires
        p.wf(),
        !p.deletable,
        !p.timed_out(now),
        !hits_platform(p.collider.rect, platforms),
        !hits_enemy(p.collider.rect, enemies),
        p.origin == ProjectileOrigin::Player || !p.collider.rect.overlaps_spec(player.collider_new.rect),
    ensures
        !p.expires(platforms, enemies, player, now),
        p.moved(dt_ms).active && !p.moved(dt_ms).deletable,
        p.moved(dt_ms).wf(),
        p.moved(dt_ms).collider.rect.x == p.moved(dt_ms).pos.x && p.moved(dt_ms).collider.rect.y == p.moved(dt_ms).pos.y,
{
}

} // verus!
