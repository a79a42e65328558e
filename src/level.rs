use vstd::prelude::*;
use crate::geometry::{Rect, Vec2i, vec2i, frame_step_spec};
use crate::collider::{Collider, ColliderType};
use crate::enums::TextureKey;
use crate::player::{Player, PlayerPowerUp, CollectedPowerUp, PlayerSenses, PlayerInput, ShootInput};
use crate::enemy::{Enemy, EnemySenses, tick_post, moved_to};
use crate::collider::{is_hit_list, lemma_hit_list_step};
use crate::projectile::Projectile;
use crate::cannon::Cannon;

verus! {

/// The levels of the game.
#[derive(Clone, Copy, Debug, PartialEq, Eq, Structural, PartialOrd, Ord, Hash)]
pub enum Level {
    Level0,
    Level1,
    Level2,
}

/// Level-wide flags.
#[derive(Clone, Copy, Debug, PartialEq, Eq, Structural, PartialOrd, Ord, Hash)]
pub enum Trigger {
    ShowCameraColliders,
    ShowColliders,
    ShowFPS,
    LevelCompleted,
    GameOver,
    TutorialWalking,
    TutorialSpace,
    TutorialCoins,
}

/// Kinds of collectible.
#[derive(Clone, Copy, Debug, PartialEq, Eq, Structural)]
pub enum CollectibleType {
    Coin,
}

/// A static block of level geometry.
#[derive(Clone, Copy, Debug, PartialEq, Eq, Structural)]
pub struct Platform {
    pub collider_new: Collider,
    pub texture_key: TextureKey,
    /// Which tile of the texture it is drawn with.
    pub texture_index: u8,
}

impl Platform {
    /// A platform covering `size` at `pos`.
    pub fn new(pos: Vec2i, size: Vec2i, texture_key: TextureKey, texture_index: u8) -> (r: Platform)
        requires
            0 <= size.x,
            0 <= size.y,
        ensures
            r == (Platform {
                collider_new: Collider::make(ColliderType::Solid, pos, size.x, size.y, Vec2i { x: 0, y: 0 }),
                texture_key,
                texture_index,
            }),
    {
        Platform { collider_new: Collider::new_solid(pos, size.x, size.y, vec2i(0, 0)), texture_key, texture_index }
    }
}

/// Something the player picks up by touching it.
#[derive(Clone, Copy, Debug, PartialEq, Eq, Structural)]
pub struct Collectible {
    pub collectible_type: CollectibleType,
    pub collected: bool,
    pub collider: Collider,
    pub texture_key: TextureKey,
    pub size: Vec2i,
}

impl Collectible {
    pub fn new(collectible_type: CollectibleType, pos: Vec2i, size: Vec2i, texture_key: TextureKey) -> (r: Collectible)
        requires
            0 <= size.x,
            0 <= size.y,
        ensures
            r.collectible_type == collectible_type && !r.collected && r.size == size,
            r.texture_key == texture_key,
            r.collider == Collider::make(ColliderType::Collectible, pos, size.x, size.y, Vec2i { x: 0, y: 0 }),
    {
        Collectible {
            collectible_type,
            collected: false,
            collider: Collider::new_collectible(pos, size.x, size.y, vec2i(0, 0)),
            texture_key,
            size,
        }
    }

    /// Marks the collectible as collected when the player touches it.
    pub fn check(&mut self, player: &Player)
        ensures
            *final(self) == (Collectible {
                collected: old(self).collected || old(self).collider.rect.overlaps_spec(
                    player.collider_new.rect,
                ),
                ..*old(self)
            }),
    {
        if self.collider.touching_player(player) {
            self.collected = true;
        }
    }
}

/// A power-up lying in the level.
#[derive(Clone, Copy, Debug, PartialEq, Eq, Structural)]
pub struct PowerUp {
    pub collected: bool,
    pub power_up: PlayerPowerUp,
    /// How long it lasts once taken, in milliseconds.
    pub duration: u64,
    pub collider: Collider,
    pub texture_key: TextureKey,
    pub size: Vec2i,
}

impl PowerUp {
    pub fn new(power_up: PlayerPowerUp, duration: u64, pos: Vec2i, size: Vec2i, texture_key: TextureKey) -> (r: PowerUp)
        requires
            0 <= size.x,
            0 <= size.y,
        ensures
            !r.collected && r.power_up == power_up && r.duration == duration && r.size == size,
            r.texture_key == texture_key,
            r.collider == Collider::make(ColliderType::Collectible, pos, size.x, size.y, Vec2i { x: 0, y: 0 }),
    {
        PowerUp {
            collected: false,
            power_up,
            duration,
            collider: Collider::new_collectible(pos, size.x, size.y, vec2i(0, 0)),
            texture_key,
            size,
        }
    }

    /// On touching the player: marks itself collected and gives the player its
    /// power-up, starting at `now` (a held one of the same kind starts over).
    pub fn tick(&mut self, player: &mut Player, now: u64)
        ensures
            old(self).collider.rect.overlaps_spec(old(player).collider_new.rect) ==> *final(self) == (
            PowerUp { collected: true, ..*old(self) }) && *final(player) == (Player {
                power_ups: old(player).power_ups.set_spec(
                    old(self).power_up,
                    Some(old(self).collected_spec(now)),
                ),
                ..*old(player)
            }),
            !old(self).collider.rect.overlaps_spec(old(player).collider_new.rect) ==> *final(self)
                == *old(self) && *final(player) == *old(player),
    {
        if self.collider.touching_player(player) {
            self.collected = true;
            let c = self.collected_at(now);
            player.power_ups.set(self.power_up, Some(c));
        }
    }

    pub open spec fn collected_spec(self, now: u64) -> CollectedPowerUp {
        CollectedPowerUp { duration: self.duration, start: now, texture_key: self.texture_key }
    }

    /// The held form of this power-up, taken at `now`.
    pub fn collected_at(&self, now: u64) -> (r: CollectedPowerUp)
        ensures
            r == self.collected_spec(now),
    {
        CollectedPowerUp { duration: self.duration, start: now, texture_key: self.texture_key }
    }
}

/// How often a level was played and lost.
#[derive(Clone, Copy, Debug, PartialEq, Eq, Structural)]
pub struct LevelStat {
    pub level: Level,
    pub plays: u32,
    pub deaths: u32,
}

impl LevelStat {
    pub fn new(level: Level) -> (r: LevelStat)
        ensures
            r == (LevelStat { level, plays: 0, deaths: 0 }),
    {
        LevelStat { level, plays: 0, deaths: 0 }
    }

    /// Records one more play with `deaths` deaths.
    pub fn update(&mut self, deaths: u32)
        requires
            old(self).plays < u32::MAX,
            old(self).deaths + deaths <= u32::MAX,
        ensures
            *final(self) == (LevelStat {
                plays: (old(self).plays + 1) as u32,
                deaths: (old(self).deaths + deaths) as u32,
                ..*old(self)
            }),
    {
        self.plays = self.plays + 1;
        self.deaths = self.deaths + deaths;
    }
}

} // verus!

verus! {

/// Everything a running level holds.
#[derive(Debug)]
pub struct LevelData {
    /// When the level started, in milliseconds.
    pub start_time: u64,
    /// World position of the visible window's top-left corner.
    pub zero: Vec2i,
    pub level: Option<Level>,
    pub player: Player,
    pub platforms: Vec<Platform>,
    pub collectibles: Vec<Collectible>,
    pub enemies: Vec<Enemy>,
    pub cannons: Vec<Cannon>,
    pub projectiles: Vec<Projectile>,
    pub power_ups: Vec<PowerUp>,
    /// Level-wide flags that are set.
    pub triggers: Vec<Trigger>,
}

/// `a + b`, held to the range of `u32`.
pub open spec fn sat_add_u32(a: int, b: int) -> int {
    if a + b > u32::MAX {
        u32::MAX as int
    } else {
        a + b
    }
}

/// Collected coins in `s`.
pub open spec fn coins_collected(s: Seq<Collectible>) -> nat
    decreases s.len(),
{
    if s.len() == 0 {
        0
    } else {
        coins_collected(s.drop_last()) + if s.last().collected && s.last().collectible_type
            == CollectibleType::Coin {
            1nat
        } else {
            0nat
        }
    }
}

/// A collectible after the player's frame: collected once touched.
pub open spec fn checked(c: Collectible, player: Player) -> Collectible {
    Collectible { collected: c.collected || c.collider.rect.overlaps_spec(player.collider_new.rect), ..c }
}

pub open spec fn not_collected(c: Collectible) -> bool {
    !c.collected
}

pub open spec fn not_deletable(p: Projectile) -> bool {
    !p.deletable
}

pub open spec fn power_up_left(p: PowerUp) -> bool {
    !p.collected
}

/// Collectibles phase from `o` to `n`.
pub open spec fn collectibles_post(o: LevelData, n: LevelData) -> bool {
    &&& ({
        let c = o.collectibles@.map_values(|c: Collectible| checked(c, o.player));
        &&& n.collectibles@ == c.filter(|x: Collectible| not_collected(x))
        &&& n.player == (Player {
            coins: sat_add_u32(o.player.coins as int, o.coin_value() * coins_collected(c)) as u32,
            ..o.player
        })
    })
    &&& n.enemies == o.enemies && n.projectiles == o.projectiles
    &&& n.cannons == o.cannons && n.power_ups == o.power_ups
    &&& n.platforms == o.platforms && n.triggers == o.triggers
    &&& n.start_time == o.start_time && n.zero == o.zero
    &&& n.level == o.level
}

/// Enemy placement from `o` to `n`.
pub open spec fn placement_post(o: LevelData, n: LevelData, positions: Seq<Vec2i>) -> bool {
    &&& n.enemies@.len() == o.enemies@.len()
    &&& forall|i: int|
        0 <= i < positions.len() ==> #[trigger] moved_to(n.enemies@[i], o.enemies@[i], positions[i])
    &&& n.player == o.player && n.collectibles == o.collectibles
    &&& n.projectiles == o.projectiles
    &&& n.cannons == o.cannons && n.power_ups == o.power_ups
    &&& n.platforms == o.platforms && n.triggers == o.triggers
    &&& n.start_time == o.start_time && n.zero == o.zero
    &&& n.level == o.level
}

/// Cannons phase from `o` to `n`.
pub open spec fn cannons_post(o: LevelData, n: LevelData, now: u64) -> bool {
    &&& n.cannons@ == o.cannons@.map_values(|c: Cannon| cannon_after(c, now))
    &&& n.projectiles@ == o.projectiles@ + cannon_shots(o.cannons@, now)
    &&& n.player == o.player && n.collectibles == o.collectibles
    &&& n.enemies == o.enemies && n.power_ups == o.power_ups
    &&& n.platforms == o.platforms && n.triggers == o.triggers
    &&& n.start_time == o.start_time && n.zero == o.zero
    &&& n.level == o.level
}

/// Projectiles phase from `o` to `n`.
pub open spec fn projectiles_post(o: LevelData, n: LevelData, now: u64, dt_ms: u32) -> bool {
    &&& n.projectiles@ == o.projectiles@.map_values(
        |p: Projectile|
            projectile_after(p, o.platforms@, o.enemies@, o.player, now, dt_ms),
    ).filter(|p: Projectile| not_deletable(p))
    &&& n.player == o.player && n.collectibles == o.collectibles
    &&& n.enemies == o.enemies && n.power_ups == o.power_ups
    &&& n.cannons == o.cannons
    &&& n.platforms == o.platforms && n.triggers == o.triggers
    &&& n.start_time == o.start_time && n.zero == o.zero
    &&& n.level == o.level
}

/// Power-ups phase from `o` to `n`.
pub open spec fn power_ups_post(o: LevelData, n: LevelData, now: u64) -> bool {
    &&& n.power_ups@ == o.power_ups@.map_values(
        |p: PowerUp| power_up_after(p, o.player.collider_new.rect),
    ).filter(|p: PowerUp| power_up_left(p))
    &&& n.player == (Player {
        power_ups: bag_after(o.power_ups@, o.player.power_ups, o.player.collider_new.rect, now),
        ..o.player
    })
    &&& n.collectibles == o.collectibles && n.projectiles == o.projectiles
    &&& n.enemies == o.enemies && n.cannons == o.cannons
    &&& n.platforms == o.platforms && n.triggers == o.triggers
    &&& n.start_time == o.start_time && n.zero == o.zero
    &&& n.level == o.level
}

impl LevelData {
    pub open spec fn wf(&self) -> bool {
        &&& forall|i: int| 0 <= i < self.enemies@.len() ==> #[trigger] self.enemies@[i].wf()
        &&& forall|i: int| 0 <= i < self.cannons@.len() ==> #[trigger] self.cannons@[i].wf()
    }

    /// Coins one collected coin is worth: two under the double-coins power-up.
    pub open spec fn coin_value(&self) -> int {
        if self.player.power_ups.coins2x is Some {
            2
        } else {
            1
        }
    }

    /// A fresh level at `now`: no projectiles, no flags set.
    pub fn new(
        level: Level,
        player: Player,
        platforms: Vec<Platform>,
        collectibles: Vec<Collectible>,
        enemies: Vec<Enemy>,
        cannons: Vec<Cannon>,
        power_ups: Vec<PowerUp>,
        now: u64,
    ) -> (r: LevelData)
        ensures
            r.start_time == now && r.zero == (Vec2i { x: 0, y: 0 }) && r.level == Some(level),
            r.player == player && r.platforms == platforms && r.collectibles == collectibles,
            r.enemies == enemies && r.cannons == cannons && r.power_ups == power_ups,
            r.projectiles@.len() == 0 && r.triggers@.len() == 0,
    {
        LevelData {
            start_time: now,
            zero: vec2i(0, 0),
            level: Some(level),
            player,
            platforms,
            collectibles,
            enemies,
            cannons,
            projectiles: Vec::new(),
            power_ups,
            triggers: Vec::new(),
        }
    }

    /// Collectibles phase: every collectible the player touches is collected and
    /// removed; each collected coin adds its value to the player's coins.
    pub fn tick_collectibles(&mut self)
        ensures
            collectibles_post(*old(self), *final(self)),
    {
        let ghost player0 = self.player;
        let ghost c = old(self).collectibles@.map_values(|c: Collectible| checked(c, player0));
        let value: u32 = if self.player.power_ups.contains(crate::player::PlayerPowerUp::Coins2x) {
            2
        } else {
            1
        };
        let mut rest: Vec<Collectible> = Vec::new();
        std::mem::swap(&mut rest, &mut self.collectibles);
        let n = rest.len();
        let mut k: usize = 0;
        while k < n
            invariant
                0 <= k <= n,
                n == c.len(),
                rest@ == old(self).collectibles@.skip(k as int),
                self.collectibles@ == c.take(k as int).filter(|x: Collectible| not_collected(x)),
                value == old(self).coin_value(),
                self.player == (Player {
                    coins: sat_add_u32(player0.coins as int, value * coins_collected(c.take(k as int))) as u32,
                    ..player0
                }),
                player0 == old(self).player,
                c == old(self).collectibles@.map_values(|c: Collectible| checked(c, player0)),
                self.enemies == old(self).enemies && self.projectiles == old(self).projectiles,
                self.cannons == old(self).cannons && self.power_ups == old(self).power_ups,
                self.platforms == old(self).platforms && self.triggers == old(self).triggers,
                self.start_time == old(self).start_time && self.zero == old(self).zero,
                self.level == old(self).level,
            decreases n - k,
        {
            let mut item = rest.remove(0);
            item.check(&self.player);
            proof {
                assert(c.take(k as int + 1) =~= c.take(k as int).push(item));
                c.take(k as int).lemma_filter_push(item, |x: Collectible| not_collected(x));
                assert(c.take(k as int + 1).drop_last() =~= c.take(k as int));
                assert(rest@ =~= old(self).collectibles@.skip(k as int + 1));
            }
            if item.collected {
                if item.collectible_type == CollectibleType::Coin {
                    self.player.coins = self.player.coins.saturating_add(value);
                }
            } else {
                self.collectibles.push(item);
            }
            k = k + 1;
        }
        assert(c.take(n as int) =~= c);
    }
}

} // verus!

verus! {

/// The enemies phase from `old` to `new`: `idx` lists the enemies that were not
/// deletable, the survivors in order; each ticked once with its own senses, the
/// player passing through `ps`; the others are gone.
pub open spec fn enemies_phase(
    old: Seq<Enemy>,
    new: Seq<Enemy>,
    senses: Seq<EnemySenses>,
    projectiles: Seq<Projectile>,
    idx: Seq<usize>,
    ps: Seq<Player>,
    motions: Seq<Vec2i>,
    now: u64,
    dt_ms: u32,
    scale_milli: u16,
) -> bool {
    &&& is_hit_list(idx, old.len() as int, |i: int| !old[i].deletable)
    &&& new.len() == idx.len() && motions.len() == idx.len() && ps.len() == idx.len() + 1
    &&& forall|k: int|
        0 <= k < idx.len() ==> #[trigger] tick_post(
            new[k],
            old[idx[k] as int],
            senses[idx[k] as int],
            ps[k],
            ps[k + 1],
            projectiles,
            now,
            dt_ms,
            scale_milli,
            motions[k],
        )
}

/// Enemies phase from `o` to `n`, with the movements it returned.
pub open spec fn enemies_post(
    o: LevelData,
    n: LevelData,
    senses: Seq<EnemySenses>,
    motions: Seq<Vec2i>,
    now: u64,
    dt_ms: u32,
    scale_milli: u16,
) -> bool {
    &&& exists|idx: Seq<usize>, ps: Seq<Player>|
        enemies_phase(o.enemies@, n.enemies@, senses, o.projectiles@, idx, ps, motions, now, dt_ms, scale_milli)
            && ps[0] == o.player && ps.last() == n.player
    &&& n.collectibles == o.collectibles && n.projectiles == o.projectiles
    &&& n.cannons == o.cannons && n.power_ups == o.power_ups
    &&& n.platforms == o.platforms && n.triggers == o.triggers
    &&& n.start_time == o.start_time && n.zero == o.zero
    &&& n.level == o.level
}

impl LevelData {
    /// Enemies phase: an enemy already deletable is dropped without a tick; every
    /// other one ticks (see [`Enemy::tick`]) with the senses at its own index, in
    /// order. Returns each survivor's movement, for the physics backend to commit
    /// before [`LevelData::place_enemies`].
    pub fn tick_enemies(&mut self, senses: &Vec<EnemySenses>, now: u64, dt_ms: u32, scale_milli: u16) -> (motions: Vec<Vec2i>)
        requires
            old(self).wf(),
            senses@.len() == old(self).enemies@.len(),
        ensures
            final(self).wf(),
            enemies_post(*old(self), *final(self), senses@, motions@, now, dt_ms, scale_milli),
    {
        let mut rest: Vec<Enemy> = Vec::new();
        std::mem::swap(&mut rest, &mut self.enemies);
        let ghost orig = old(self).enemies@;
        let ghost mut idx: Seq<usize> = Seq::empty();
        let ghost mut ps: Seq<Player> = seq![old(self).player];
        let mut motions: Vec<Vec2i> = Vec::new();
        let n = rest.len();
        let mut i: usize = 0;
        while i < n
            invariant
                0 <= i <= n,
                n == orig.len(),
                senses@.len() == n,
                forall|j: int| 0 <= j < orig.len() ==> #[trigger] orig[j].wf(),
                forall|j: int| 0 <= j < self.enemies@.len() ==> #[trigger] self.enemies@[j].wf(),
                rest@ == orig.skip(i as int),
                is_hit_list(idx, i as int, |j: int| !orig[j].deletable),
                self.enemies@.len() == idx.len() && motions@.len() == idx.len() && ps.len() == idx.len() + 1,
                ps[0] == old(self).player,
                ps.last() == self.player,
                forall|k: int|
                    0 <= k < idx.len() ==> #[trigger] tick_post(
                        self.enemies@[k],
                        orig[idx[k] as int],
                        senses@[idx[k] as int],
                        ps[k],
                        ps[k + 1],
                        old(self).projectiles@,
                        now,
                        dt_ms,
                        scale_milli,
                        motions@[k],
                    ),
                self.collectibles == old(self).collectibles && self.projectiles == old(self).projectiles,
                self.cannons == old(self).cannons && self.power_ups == old(self).power_ups,
                self.platforms == old(self).platforms && self.triggers == old(self).triggers,
                self.start_time == old(self).start_time && self.zero == old(self).zero,
                self.level == old(self).level,
                orig == old(self).enemies@,
            decreases n - i,
        {
            let mut e = rest.remove(0);
            proof {
                assert(e == orig[i as int]);
                assert(rest@ =~= orig.skip(i as int + 1));
                lemma_hit_list_step(idx, i as int, |j: int| !orig[j].deletable);
            }
            if !e.deletable {
                let ghost p_before = self.player;
                let m = e.tick(&senses[i], &mut self.player, &self.projectiles, now, dt_ms, scale_milli);
                self.enemies.push(e);
                motions.push(m);
                proof {
                    idx = idx.push(i as usize);
                    ps = ps.push(self.player);
                    assert forall|k: int| 0 <= k < idx.len() implies #[trigger] tick_post(
                        self.enemies@[k],
                        orig[idx[k] as int],
                        senses@[idx[k] as int],
                        ps[k],
                        ps[k + 1],
                        old(self).projectiles@,
                        now,
                        dt_ms,
                        scale_milli,
                        motions@[k],
                    ) by {
                        if k == idx.len() - 1 {
                        } else {
                        }
                    }
                }
            }
            i = i + 1;
        }
        proof {
            assert(enemies_phase(orig, self.enemies@, senses@, old(self).projectiles@, idx, ps, motions@, now, dt_ms, scale_milli));
        }
        motions
    }
}

} // verus!

verus! {

/// The shots that `cannons` fire at `now`, in order.
pub open spec fn cannon_shots(cannons: Seq<Cannon>, now: u64) -> Seq<Projectile>
    decreases cannons.len(),
{
    if cannons.len() == 0 {
        Seq::empty()
    } else {
        let prev = cannon_shots(cannons.drop_last(), now);
        if cannons.last().due(now) {
            prev.push(cannons.last().shot_spec(now))
        } else {
            prev
        }
    }
}

/// A cannon after its tick at `now`.
pub open spec fn cannon_after(c: Cannon, now: u64) -> Cannon {
    if c.due(now) {
        Cannon { last_shoot: now, ..c }
    } else {
        c
    }
}

/// A projectile after its tick.
pub open spec fn projectile_after(p: Projectile, platforms: Seq<Platform>, enemies: Seq<Enemy>, player: Player, now: u64, dt_ms: u32) -> Projectile {
    if p.expires(platforms, enemies, player, now) {
        Projectile { active: false, deletable: true, ..p }
    } else {
        p.moved(dt_ms)
    }
}

/// A power-up after its tick against a player standing at `rect`.
pub open spec fn power_up_after(p: PowerUp, rect: Rect) -> PowerUp {
    if p.collider.rect.overlaps_spec(rect) {
        PowerUp { collected: true, ..p }
    } else {
        p
    }
}

/// The player's power-ups after taking, in order, those of `s` that touch `rect`.
pub open spec fn bag_after(s: Seq<PowerUp>, bag: crate::player::PowerUpBag, rect: Rect, now: u64) -> crate::player::PowerUpBag
    decreases s.len(),
{
    if s.len() == 0 {
        bag
    } else {
        let prev = bag_after(s.drop_last(), bag, rect, now);
        if s.last().collider.rect.overlaps_spec(rect) {
            prev.set_spec(s.last().power_up, Some(s.last().collected_spec(now)))
        } else {
            prev
        }
    }
}

impl LevelData {
    /// Moves each enemy to the position the physics backend resolved for it.
    pub fn place_enemies(&mut self, positions: &Vec<Vec2i>)
        requires
            old(self).wf(),
            positions@.len() == old(self).enemies@.len(),
        ensures
            final(self).wf(),
            placement_post(*old(self), *final(self), positions@),
    {
        let mut rest: Vec<Enemy> = Vec::new();
        std::mem::swap(&mut rest, &mut self.enemies);
        let ghost orig = old(self).enemies@;
        let n = rest.len();
        let mut i: usize = 0;
        while i < n
            invariant
                0 <= i <= n,
                n == orig.len(),
                positions@.len() == n,
                orig == old(self).enemies@,
                forall|j: int| 0 <= j < orig.len() ==> #[trigger] orig[j].wf(),
                rest@ == orig.skip(i as int),
                self.enemies@.len() == i,
                forall|j: int| 0 <= j < i ==> #[trigger] self.enemies@[j].wf(),
                forall|j: int| 0 <= j < i ==> #[trigger] moved_to(self.enemies@[j], orig[j], positions@[j]),
                self.player == old(self).player && self.collectibles == old(self).collectibles,
                self.projectiles == old(self).projectiles,
                self.cannons == old(self).cannons && self.power_ups == old(self).power_ups,
                self.platforms == old(self).platforms && self.triggers == old(self).triggers,
                self.start_time == old(self).start_time && self.zero == old(self).zero,
                self.level == old(self).level,
            decreases n - i,
        {
            let mut e = rest.remove(0);
            proof {
                assert(e == orig[i as int]);
                assert(rest@ =~= orig.skip(i as int + 1));
            }
            e.update_pos(positions[i]);
            self.enemies.push(e);
            i = i + 1;
        }
    }

    /// Cannons phase: each due cannon fires, in order, onto the projectiles.
    pub fn tick_cannons(&mut self, now: u64)
        requires
            old(self).wf(),
        ensures
            final(self).wf(),
            cannons_post(*old(self), *final(self), now),
    {
        let ghost orig = old(self).cannons@;
        let n = self.cannons.len();
        let mut i: usize = 0;
        while i < n
            invariant
                0 <= i <= n,
                n == orig.len(),
                orig == old(self).cannons@,
                self.cannons@.len() == n,
                forall|j: int| 0 <= j < n ==> #[trigger] orig[j].wf(),
                forall|j: int| 0 <= j < i ==> self.cannons@[j] == cannon_after(#[trigger] orig[j], now),
                forall|j: int| i <= j < n ==> #[trigger] self.cannons@[j] == orig[j],
                self.projectiles@ == old(self).projectiles@ + cannon_shots(orig.take(i as int), now),
                self.player == old(self).player && self.collectibles == old(self).collectibles,
                self.enemies == old(self).enemies && self.power_ups == old(self).power_ups,
                self.platforms == old(self).platforms && self.triggers == old(self).triggers,
                self.start_time == old(self).start_time && self.zero == old(self).zero,
                self.level == old(self).level,
            decreases n - i,
        {
            let mut c = self.cannons[i];
            proof {
                assert(orig.take(i as int + 1).drop_last() =~= orig.take(i as int));
                assert(orig.take(i as int + 1).last() == orig[i as int]);
            }
            c.tick(&mut self.projectiles, now);
            self.cannons.set(i, c);
            proof {
                if orig[i as int].due(now) {
                    assert(self.projectiles@ =~= old(self).projectiles@ + cannon_shots(orig.take(i as int + 1), now));
                }
            }
            i = i + 1;
        }
        assert(orig.take(n as int) =~= orig);
        assert(self.cannons@ =~= orig.map_values(|c: Cannon| cannon_after(c, now)));
        assert forall|j: int| 0 <= j < self.cannons@.len() implies #[trigger] self.cannons@[j].wf() by {
            assert(orig[j].wf());
            assert(self.cannons@[j] == cannon_after(orig[j], now));
        }
    }
}

} // verus!

verus! {

impl LevelData {
    /// Projectiles phase: each projectile ticks against the platforms, the enemies
    /// and the player (see [`Projectile::tick`]); the expired ones are removed.
    pub fn tick_projectiles(&mut self, now: u64, dt_ms: u32)
        requires
            old(self).wf(),
        ensures
            final(self).wf(),
            projectiles_post(*old(self), *final(self), now, dt_ms),
    {
        let ghost t = old(self).projectiles@.map_values(
            |p: Projectile| projectile_after(p, old(self).platforms@, old(self).enemies@, old(self).player, now, dt_ms),
        );
        let mut rest: Vec<Projectile> = Vec::new();
        std::mem::swap(&mut rest, &mut self.projectiles);
        let n = rest.len();
        let mut k: usize = 0;
        while k < n
            invariant
                0 <= k <= n,
                n == t.len(),
                t == old(self).projectiles@.map_values(
                    |p: Projectile| projectile_after(p, old(self).platforms@, old(self).enemies@, old(self).player, now, dt_ms),
                ),
                rest@ == old(self).projectiles@.skip(k as int),
                self.projectiles@ == t.take(k as int).filter(|p: Projectile| not_deletable(p)),
                forall|j: int| 0 <= j < self.enemies@.len() ==> #[trigger] self.enemies@[j].wf(),
                self.player == old(self).player && self.collectibles == old(self).collectibles,
                self.enemies == old(self).enemies && self.power_ups == old(self).power_ups,
                self.cannons == old(self).cannons,
                self.platforms == old(self).platforms && self.triggers == old(self).triggers,
                self.start_time == old(self).start_time && self.zero == old(self).zero,
                self.level == old(self).level,
            decreases n - k,
        {
            let mut p = rest.remove(0);
            p.tick(&self.platforms, &self.enemies, &self.player, now, dt_ms);
            proof {
                assert(t.take(k as int + 1) =~= t.take(k as int).push(p));
                t.take(k as int).lemma_filter_push(p, |p: Projectile| not_deletable(p));
                assert(rest@ =~= old(self).projectiles@.skip(k as int + 1));
            }
            if !p.deletable {
                self.projectiles.push(p);
            }
            k = k + 1;
        }
        assert(t.take(n as int) =~= t);
    }

    /// Power-ups phase: each power-up the player touches gives its power-up to the
    /// player (see [`PowerUp::tick`]) and is removed.
    pub fn tick_power_ups(&mut self, now: u64)
        ensures
            power_ups_post(*old(self), *final(self), now),
    {
        let ghost rect = old(self).player.collider_new.rect;
        let ghost orig = old(self).power_ups@;
        let ghost t = orig.map_values(|p: PowerUp| power_up_after(p, rect));
        let mut rest: Vec<PowerUp> = Vec::new();
        std::mem::swap(&mut rest, &mut self.power_ups);
        let n = rest.len();
        let mut k: usize = 0;
        while k < n
            invariant
                0 <= k <= n,
                n == t.len(),
                orig == old(self).power_ups@,
                rect == old(self).player.collider_new.rect,
                t == orig.map_values(|p: PowerUp| power_up_after(p, rect)),
                rest@ == orig.skip(k as int),
                self.power_ups@ == t.take(k as int).filter(|p: PowerUp| power_up_left(p)),
                self.player == (Player {
                    power_ups: bag_after(orig.take(k as int), old(self).player.power_ups, rect, now),
                    ..old(self).player
                }),
                self.collectibles == old(self).collectibles && self.projectiles == old(self).projectiles,
                self.enemies == old(self).enemies && self.cannons == old(self).cannons,
                self.platforms == old(self).platforms && self.triggers == old(self).triggers,
                self.start_time == old(self).start_time && self.zero == old(self).zero,
                self.level == old(self).level,
            decreases n - k,
        {
            let mut p = rest.remove(0);
            proof {
                assert(p == orig[k as int]);
                assert(orig.take(k as int + 1).drop_last() =~= orig.take(k as int));
                assert(rest@ =~= orig.skip(k as int + 1));
            }
            p.tick(&mut self.player, now);
            proof {
                assert(t.take(k as int + 1) =~= t.take(k as int).push(p));
                t.take(k as int).lemma_filter_push(p, |p: PowerUp| power_up_left(p));
            }
            if !p.collected {
                self.power_ups.push(p);
            }
            k = k + 1;
        }
        assert(t.take(n as int) =~= t);
        assert(orig.take(n as int) =~= orig);
    }
}

} // verus!

verus! {

impl LevelData {
    /// First half of a level frame: the collectibles phase, then the enemies phase.
    /// `senses` holds what the physics backend reports for each enemy, by index.
    /// Returns the movement of each surviving enemy for the backend to commit; then
    /// [`LevelData::finish_tick_level`] takes the resolved positions.
    pub fn tick_level(&mut self, senses: &Vec<EnemySenses>, now: u64, dt_ms: u32, scale_milli: u16) -> (motions: Vec<Vec2i>)
        requires
            old(self).wf(),
            senses@.len() == old(self).enemies@.len(),
        ensures
            final(self).wf(),
            exists|mid: LevelData|
                collectibles_post(*old(self), mid) && enemies_post(mid, *final(self), senses@, motions@, now, dt_ms, scale_milli),
    {
        self.tick_collectibles();
        let ghost mid = *self;
        self.tick_enemies(senses, now, dt_ms, scale_milli)
    }

    /// Second half of a level frame: the enemies take the positions the physics
    /// backend resolved, then the cannons phase (new shots can expire in this same
    /// frame), the projectiles phase and the power-ups phase.
    pub fn finish_tick_level(&mut self, positions: &Vec<Vec2i>, now: u64, dt_ms: u32)
        requires
            old(self).wf(),
            positions@.len() == old(self).enemies@.len(),
        ensures
            final(self).wf(),
            exists|a: LevelData, b: LevelData, c: LevelData|
                placement_post(*old(self), a, positions@) && cannons_post(a, b, now) && projectiles_post(b, c, now, dt_ms)
                    && power_ups_post(c, *final(self), now),
    {
        self.place_enemies(positions);
        let ghost a = *self;
        self.tick_cannons(now);
        let ghost b = *self;
        self.tick_projectiles(now, dt_ms);
        let ghost c = *self;
        self.tick_power_ups(now);
    }

    /// Whether a level flag is set.
    pub fn trigger_active(&self, trigger: Trigger) -> (r: bool)
        ensures
            r == self.triggers@.contains(trigger),
    {
        let mut i: usize = 0;
        while i < self.triggers.len()
            invariant
                0 <= i <= self.triggers@.len(),
                forall|j: int| 0 <= j < i ==> self.triggers@[j] != trigger,
            decreases self.triggers@.len() - i,
        {
            if self.triggers[i] == trigger {
                return true;
            }
            i = i + 1;
        }
        false
    }

    /// Sets or clears a level flag: it is removed wherever it stands and, when
    /// `value` is set, added once at the end.
    pub fn insert_trigger(&mut self, trigger: Trigger, value: bool)
        ensures
            final(self).triggers@ == old(self).triggers@.filter(|t: Trigger| t != trigger) + if value {
                seq![trigger]
            } else {
                Seq::empty()
            },
            final(self).player == old(self).player && final(self).collectibles == old(self).collectibles,
            final(self).enemies == old(self).enemies && final(self).projectiles == old(self).projectiles,
            final(self).cannons == old(self).cannons && final(self).power_ups == old(self).power_ups,
            final(self).platforms == old(self).platforms,
            final(self).start_time == old(self).start_time && final(self).zero == old(self).zero,
            final(self).level == old(self).level,
    {
        let mut kept: Vec<Trigger> = Vec::new();
        let mut i: usize = 0;
        while i < self.triggers.len()
            invariant
                0 <= i <= self.triggers@.len(),
                self.triggers == old(self).triggers,
                kept@ == self.triggers@.take(i as int).filter(|t: Trigger| t != trigger),
            decreases self.triggers@.len() - i,
        {
            let t = self.triggers[i];
            proof {
                assert(self.triggers@.take(i as int + 1) =~= self.triggers@.take(i as int).push(t));
                self.triggers@.take(i as int).lemma_filter_push(t, |t: Trigger| t != trigger);
            }
            if t != trigger {
                kept.push(t);
            }
            i = i + 1;
        }
        assert(self.triggers@.take(self.triggers@.len() as int) =~= self.triggers@);
        if value {
            kept.push(trigger);
        }
        assert(kept@ =~= old(self).triggers@.filter(|t: Trigger| t != trigger) + if value {
            seq![trigger]
        } else {
            Seq::empty()
        });
        self.triggers = kept;
    }
}

} // verus!

verus! {

impl LevelData {
    /// The player's control step (see [`Player::control`]); returns the movement for
    /// the physics backend to commit.
    pub fn control_player(&mut self, senses: PlayerSenses, input: PlayerInput, now: u64, dt_ms: u32, scale_milli: u16) -> (motion: Vec2i)
        ensures
            final(self).player == old(self).player.after_control(senses, input, now, dt_ms, scale_milli),
            motion == (Vec2i {
                x: frame_step_spec(final(self).player.speed.x as int, dt_ms as int) as i32,
                y: frame_step_spec(final(self).player.speed.y as int, dt_ms as int) as i32,
            }),
            final(self).collectibles == old(self).collectibles && final(self).enemies == old(self).enemies,
            final(self).projectiles == old(self).projectiles && final(self).cannons == old(self).cannons,
            final(self).power_ups == old(self).power_ups && final(self).platforms == old(self).platforms,
            final(self).triggers == old(self).triggers && final(self).start_time == old(self).start_time,
            final(self).zero == old(self).zero && final(self).level == old(self).level,
    {
        self.player.control(senses, input, now, dt_ms, scale_milli)
    }

    /// The rest of the player's frame, once the backend has resolved the player's
    /// position `pos` and the window's corner `zero`: the player ticks (see
    /// [`Player::tick`]) against the enemies and projectiles, a shot fired joins
    /// the projectiles, and the game-over flag is set when health ran out.
    pub fn finish_player(&mut self, pos: Vec2i, zero: Vec2i, shoot: ShootInput, now: u64, scale_milli: u16)
        requires
            old(self).wf(),
        ensures
            final(self).wf(),
            ({
                let moved = Player {
                    pos,
                    collider_new: Collider {
                        rect: Rect { x: pos.x, y: pos.y, ..old(self).player.collider_new.rect },
                        ..old(self).player.collider_new
                    },
                    ..old(self).player
                };
                let (p, shot) = moved.tick_spec(old(self).enemies@, old(self).projectiles@, shoot, now, scale_milli);
                let over = moved.after_hits(old(self).enemies@, old(self).projectiles@, now).health == 0;
                &&& final(self).player == p
                &&& final(self).projectiles@ == match shot {
                    Some(s) => old(self).projectiles@.push(s),
                    None => old(self).projectiles@,
                }
                &&& over ==> final(self).triggers@.contains(Trigger::GameOver)
                &&& !over ==> final(self).triggers == old(self).triggers
            }),
            final(self).zero == zero,
            final(self).collectibles == old(self).collectibles && final(self).enemies == old(self).enemies,
            final(self).cannons == old(self).cannons && final(self).power_ups == old(self).power_ups,
            final(self).platforms == old(self).platforms,
            final(self).start_time == old(self).start_time && final(self).level == old(self).level,
    {
        self.player.perform_move(pos);
        self.zero = zero;
        let outcome = self.player.tick(&self.enemies, &self.projectiles, shoot, now, scale_milli);
        match outcome.shot {
            Some(s) => self.projectiles.push(s),
            None => {},
        }
        if outcome.game_over {
            self.insert_trigger(Trigger::GameOver, true);
            proof {
                let f = self.triggers@;
                assert(f[f.len() - 1] == Trigger::GameOver);
            }
        }
    }
}

/// The elements of `s` whose index is not listed in `remove`, in order.
pub open spec fn without_indices<T>(s: Seq<T>, remove: Seq<usize>) -> Seq<T>
    decreases s.len(),
{
    if s.len() == 0 {
        s
    } else {
        let prev = without_indices(s.drop_last(), remove);
        if remove.contains((s.len() - 1) as usize) {
            prev
        } else {
            prev.push(s.last())
        }
    }
}

/// A new vector holding the elements of `source` whose index is not in `remove`.
pub fn remove_elements_vec<T: Copy>(source: &Vec<T>, remove: Vec<usize>) -> (r: Vec<T>)
    ensures
        r@ == without_indices(source@, remove@),
{
    let mut result: Vec<T> = Vec::new();
    let mut i: usize = 0;
    while i < source.len()
        invariant
            0 <= i <= source@.len(),
            result@ == without_indices(source@.take(i as int), remove@),
        decreases source@.len() - i,
    {
        proof {
            assert(source@.take(i as int + 1).drop_last() =~= source@.take(i as int));
        }
        let mut listed = false;
        let mut j: usize = 0;
        while j < remove.len()
            invariant
                0 <= j <= remove@.len(),
                listed == exists|k: int| 0 <= k < j && remove@[k] == i,
            decreases remove@.len() - j,
        {
            if remove[j] == i {
                listed = true;
            }
            j = j + 1;
        }
        if !listed {
            result.push(source[i]);
        }
        i = i + 1;
    }
    assert(source@.take(source@.len() as int) =~= source@);
    result
}

} // verus!

verus! {

impl LevelData {
    /// Indices, in ascending order, of the enemies already marked deletable: the
    /// ones the next enemies phase drops without a tick.
    pub fn deletable_enemies(&self) -> (r: Vec<usize>)
        ensures
            is_hit_list(r@, self.enemies@.len() as int, |i: int| self.enemies@[i].deletable),
    {
        let ghost hit = |i: int| self.enemies@[i].deletable;
        let mut result: Vec<usize> = Vec::new();
        let mut i: usize = 0;
        while i < self.enemies.len()
            invariant
                0 <= i <= self.enemies@.len(),
                is_hit_list(result@, i as int, hit),
                forall|j: int| #[trigger] hit(j) == self.enemies@[j].deletable,
            decreases self.enemies@.len() - i,
        {
            proof {
                lemma_hit_list_step(result@, i as int, hit);
            }
            if self.enemies[i].deletable {
                result.push(i);
            }
            i = i + 1;
        }
        result
    }
}

} // verus!
