use vstd::prelude::*;
use crate::geometry::{Rect, Vec2i, vec2i, add_clamped, clamp_i32};
use crate::player::Player;
use crate::enemy::Enemy;
use crate::projectile::Projectile;
use crate::level::Platform;

verus! {

/// What a collider stands for.
#[derive(Clone, Copy, Debug, PartialEq, Eq, Structural)]
pub enum ColliderType {
    Actor,
    Enemy,
    Projectile,
    Solid,
    Collectible,
    Trigger,
}

/// A gameplay rectangle tagged with its kind and its offset from the owner's anchor.
#[derive(Clone, Copy, Debug, PartialEq, Eq, Structural)]
pub struct Collider {
    pub rect: Rect,
    pub offset: Vec2i,
    pub collider_type: ColliderType,
}

/// `r` lists, in ascending order, exactly the indices below `n` for which `hit` holds.
pub open spec fn is_hit_list(r: Seq<usize>, n: int, hit: spec_fn(int) -> bool) -> bool {
    &&& forall|k: int| 0 <= k < r.len() ==> #[trigger] r[k] < n && hit(r[k] as int)
    &&& forall|k: int, l: int| 0 <= k < l < r.len() ==> #[trigger] r[k] < #[trigger] r[l]
    &&& forall|i: int| 0 <= i < n && #[trigger] hit(i) ==> r.contains(i as usize)
}

/// Pushing a fresh hit `i` onto the hits below `i` gives the hits below `i + 1`.
pub proof fn lemma_hit_list_step(r: Seq<usize>, i: int, hit: spec_fn(int) -> bool)
    requires
        0 <= i < usize::MAX,
        is_hit_list(r, i, hit),
    ensures
        hit(i) ==> is_hit_list(r.push(i as usize), i + 1, hit),
        !hit(i) ==> is_hit_list(r, i + 1, hit),
{
    if hit(i) {
        let r2 = r.push(i as usize);
        assert forall|j: int| 0 <= j < i + 1 && #[trigger] hit(j) implies r2.contains(j as usize) by {
            if j == i {
                assert(r2[r.len() as int] == j as usize);
            } else {
                let k = choose|k: int| 0 <= k < r.len() && r[k] == j as usize;
                assert(r2[k] == j as usize);
            }
        }
    }
}

/// A hit list is empty exactly when nothing is hit.
pub proof fn lemma_hit_list_empty(r: Seq<usize>, n: int, hit: spec_fn(int) -> bool)
    requires
        is_hit_list(r, n, hit),
    ensures
        (r.len() == 0) == (forall|i: int| 0 <= i < n ==> !#[trigger] hit(i)),
{
    if r.len() > 0 {
        assert(hit(r[0] as int));
    }
    if r.len() == 0 {
        assert forall|i: int| 0 <= i < n implies !#[trigger] hit(i) by {
            if hit(i) {
                assert(r.contains(i as usize));
            }
        }
    }
}

impl Collider {
    /// A collider of `kind` sized `width` by `height`, placed at the anchor `pos`
    /// plus `offset`.
    pub open spec fn make(kind: ColliderType, pos: Vec2i, width: i32, height: i32, offset: Vec2i) -> Collider {
        Collider {
            rect: Rect {
                x: clamp_i32(pos.x + offset.x) as i32,
                y: clamp_i32(pos.y + offset.y) as i32,
                w: width,
                h: height,
            },
            offset,
            collider_type: kind,
        }
    }

    fn build(kind: ColliderType, pos: Vec2i, width: i32, height: i32, offset: Vec2i) -> (r: Collider)
        requires
            0 <= width,
            0 <= height,
        ensures
            r == Collider::make(kind, pos, width, height, offset),
            r.rect.wf(),
    {
        let x = add_clamped(pos.x, offset.x as i64);
        let y = add_clamped(pos.y, offset.y as i64);
        Collider { rect: Rect::new(x, y, width, height), offset, collider_type: kind }
    }

    pub fn new_actor(pos: Vec2i, width: i32, height: i32, offset: Vec2i) -> (r: Collider)
        requires
            0 <= width,
            0 <= height,
        ensures
            r == Collider::make(ColliderType::Actor, pos, width, height, offset),
    {
        Collider::build(ColliderType::Actor, pos, width, height, offset)
    }

    pub fn new_enemy(pos: Vec2i, width: i32, height: i32, offset: Vec2i) -> (r: Collider)
        requires
            0 <= width,
            0 <= height,
        ensures
            r == Collider::make(ColliderType::Enemy, pos, width, height, offset),
    {
        Collider::build(ColliderType::Enemy, pos, width, height, offset)
    }

    pub fn new_projectile(pos: Vec2i, width: i32, height: i32, offset: Vec2i) -> (r: Collider)
        requires
            0 <= width,
            0 <= height,
        ensures
            r == Collider::make(ColliderType::Projectile, pos, width, height, offset),
    {
        Collider::build(ColliderType::Projectile, pos, width, height, offset)
    }

    pub fn new_solid(pos: Vec2i, width: i32, height: i32, offset: Vec2i) -> (r: Collider)
        requires
            0 <= width,
            0 <= height,
        ensures
            r == Collider::make(ColliderType::Solid, pos, width, height, offset),
    {
        Collider::build(ColliderType::Solid, pos, width, height, offset)
    }

    pub fn new_collectible(pos: Vec2i, width: i32, height: i32, offset: Vec2i) -> (r: Collider)
        requires
            0 <= width,
            0 <= height,
        ensures
            r == Collider::make(ColliderType::Collectible, pos, width, height, offset),
    {
        Collider::build(ColliderType::Collectible, pos, width, height, offset)
    }

    pub fn new_trigger(pos: Vec2i, width: i32, height: i32, offset: Vec2i) -> (r: Collider)
        requires
            0 <= width,
            0 <= height,
        ensures
            r == Collider::make(ColliderType::Trigger, pos, width, height, offset),
    {
        Collider::build(ColliderType::Trigger, pos, width, height, offset)
    }

    /// Whether the player's gameplay collider overlaps this one.
    pub fn touching_player(&self, player: &Player) -> (r: bool)
        ensures
            r == self.rect.overlaps_spec(player.collider_new.rect),
    {
        self.rect.overlaps(&player.collider_new.rect)
    }

    /// Indices of the enemies whose hit collider overlaps this collider moved by `pos`.
    pub fn collide_check_enemy(&self, enemies: &Vec<Enemy>, pos: Vec2i) -> (r: Vec<usize>)
        requires
            forall|i: int| 0 <= i < enemies@.len() ==> #[trigger] enemies@[i].wf(),
        ensures
            is_hit_list(
                r@,
                enemies@.len() as int,
                |i: int| self.rect.shifted_overlaps_spec(pos.x as int, pos.y as int, enemies@[i].hit_rect()),
            ),
    {
        let ghost hit = |i: int|
            self.rect.shifted_overlaps_spec(pos.x as int, pos.y as int, enemies@[i].hit_rect());
        let mut result: Vec<usize> = Vec::new();
        let mut i: usize = 0;
        while i < enemies.len()
            invariant
                0 <= i <= enemies@.len(),
                forall|j: int| 0 <= j < enemies@.len() ==> #[trigger] enemies@[j].wf(),
                is_hit_list(result@, i as int, hit),
                forall|j: int| #[trigger] hit(j) == self.rect.shifted_overlaps_spec(pos.x as int, pos.y as int, enemies@[j].hit_rect()),
            decreases enemies@.len() - i,
        {
            assert(enemies@[i as int].wf());
            let h = enemies[i].hit_rect_exec();
            assert(hit(i as int) == self.rect.shifted_overlaps_spec(pos.x as int, pos.y as int, h));
            proof {
                lemma_hit_list_step(result@, i as int, hit);
            }
            if self.rect.overlaps_shifted(pos, &h) {
                result.push(i);
            }
            i = i + 1;
        }
        result
    }

    /// Indices of the projectiles whose collider overlaps this collider moved by `pos`.
    pub fn collide_check_projectile(&self, projectiles: &Vec<Projectile>, pos: Vec2i) -> (r: Vec<usize>)
        ensures
            is_hit_list(
                r@,
                projectiles@.len() as int,
                |i: int| self.rect.shifted_overlaps_spec(pos.x as int, pos.y as int, projectiles@[i].collider.rect),
            ),
    {
        let ghost hit = |i: int|
            self.rect.shifted_overlaps_spec(pos.x as int, pos.y as int, projectiles@[i].collider.rect);
        let mut result: Vec<usize> = Vec::new();
        let mut i: usize = 0;
        while i < projectiles.len()
            invariant
                0 <= i <= projectiles@.len(),
                is_hit_list(result@, i as int, hit),
                forall|j: int| #[trigger] hit(j) == self.rect.shifted_overlaps_spec(pos.x as int, pos.y as int, projectiles@[j].collider.rect),
            decreases projectiles@.len() - i,
        {
            assert(hit(i as int) == self.rect.shifted_overlaps_spec(pos.x as int, pos.y as int, projectiles@[i as int].collider.rect));
            proof {
                lemma_hit_list_step(result@, i as int, hit);
            }
            if self.rect.overlaps_shifted(pos, &projectiles[i].collider.rect) {
                result.push(i);
            }
            i = i + 1;
        }
        result
    }

    /// Indices of the platforms whose collider overlaps this collider moved by `pos`.
    pub fn collide_check_platform(&self, platforms: &Vec<Platform>, pos: Vec2i) -> (r: Vec<usize>)
        ensures
            is_hit_list(
                r@,
                platforms@.len() as int,
                |i: int| self.rect.shifted_overlaps_spec(pos.x as int, pos.y as int, platforms@[i].collider_new.rect),
            ),
    {
        let ghost hit = |i: int|
            self.rect.shifted_overlaps_spec(pos.x as int, pos.y as int, platforms@[i].collider_new.rect);
        let mut result: Vec<usize> = Vec::new();
        let mut i: usize = 0;
        while i < platforms.len()
            invariant
                0 <= i <= platforms@.len(),
                is_hit_list(result@, i as int, hit),
                forall|j: int| #[trigger] hit(j) == self.rect.shifted_overlaps_spec(pos.x as int, pos.y as int, platforms@[j].collider_new.rect),
            decreases platforms@.len() - i,
        {
            assert(hit(i as int) == self.rect.shifted_overlaps_spec(pos.x as int, pos.y as int, platforms@[i as int].collider_new.rect));
            proof {
                lemma_hit_list_step(result@, i as int, hit);
            }
            if self.rect.overlaps_shifted(pos, &platforms[i].collider_new.rect) {
                result.push(i);
            }
            i = i + 1;
        }
        result
    }

    /// Top-left corner of the rectangle.
    pub fn pos(&self) -> (r: Vec2i)
        ensures
            r == (Vec2i { x: self.rect.x, y: self.rect.y }),
    {
        vec2i(self.rect.x, self.rect.y)
    }

    /// Moves the rectangle's top-left corner to `new_pos`, keeping its size.
    pub fn change_pos(&mut self, new_pos: Vec2i)
        ensures
            *final(self) == (Collider {
                rect: Rect { x: new_pos.x, y: new_pos.y, ..old(self).rect },
                ..*old(self)
            }),
    {
        self.rect.x = new_pos.x;
        self.rect.y = new_pos.y;
    }
}

} // verus!
