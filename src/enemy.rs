use vstd::prelude::*;
use crate::geometry::{Rect, Vec2i, vec2i, add_clamped, clamp_i32, frame_step, frame_step_spec, scaled, scaled_spec};
use crate::collider::{Collider, ColliderType};
use crate::matrix::Matrix;
use crate::timer::{Timer, DAMAGE_OVERLAY_MS, DAMAGE_COOLDOWN_MS};
use crate::enums::{Direction, TextureKey};
use crate::player::{Player, sat_add_u64, sat_inc_u32, is_first_hit, first_hit};
use crate::projectile::{Projectile, ProjectileOrigin};

verus! {

/// Health of a fresh enemy.
pub const ENEMY_HEALTH: i32 = 1000;

/// Walking speed of an enemy, pixels per second at scale 1.
pub const ENEMY_SPEED: u16 = 700;

/// Upward speed of an enemy's jump.
pub const ENEMY_JUMP_SPEED: u16 = 1900;

/// Sensor rows run from `GRID_ROW_MIN` to `GRID_ROW_MAX`; a row is a step of one
/// enemy width along x.
pub const GRID_ROW_MIN: i32 = -4;

pub const GRID_ROW_MAX: i32 = 4;

/// Sensor columns run from `GRID_COL_MIN` to `GRID_COL_MAX`; a column is a step of
/// one enemy height along y.
pub const GRID_COL_MIN: i32 = -3;

pub const GRID_COL_MAX: i32 = 2;

/// Rows an idling enemy watches: `-IDLE_SIGHT..=IDLE_SIGHT`.
pub const IDLE_SIGHT: i32 = 3;

/// Largest enemy side for which every sensor offset fits in `i32`.
pub const MAX_ENEMY_SIZE: i32 = 0x0fff_ffff;

/// The two modes of an enemy.
#[derive(Clone, Copy, Debug, PartialEq, Eq, Structural)]
pub enum EnemyState {
    Idling,
    Attacking,
}

/// An enemy's flags.
#[derive(Clone, Copy, Debug, PartialEq, Eq, Structural, PartialOrd, Ord)]
pub enum EnemyWaiter {
    /// Set: patrolling right; clear: patrolling left.
    IdlingDirection,
    Jumping,
    DamageCooldown,
    DamageOverlay,
}

/// Something an enemy intends to do this frame.
#[derive(Clone, Copy, Debug, PartialEq, Eq, Structural, PartialOrd, Ord)]
pub enum EnemyBehavior {
    Move(Direction),
}

/// The state behind [`EnemyWaiter`].
#[derive(Clone, Copy, Debug, PartialEq, Eq, Structural)]
pub struct EnemyWaiters {
    pub idling_right: bool,
    pub jumping: bool,
    pub damage_cooldown: Timer,
    pub damage_overlay: Timer,
}

/// What the physics backend reports around an enemy at the start of a frame.
#[derive(Clone, Debug)]
pub struct EnemySenses {
    /// A solid lies one pixel below.
    pub on_ground: bool,
    /// A solid lies one pixel above.
    pub sealing_hit: bool,
    /// A solid lies one pixel to the left or to the right.
    pub touching_wall: bool,
    /// One enemy width plus a pixel to the right and a pixel down would hit a solid:
    /// there is ground ahead.
    pub ground_ahead_right: bool,
    /// The same, to the left.
    pub ground_ahead_left: bool,
    /// For sensor cells: whether the enemy's body placed there would hit a solid.
    /// A missing cell counts as free.
    pub blocked: Matrix<bool>,
}

/// A walking enemy with a grid of sensor cells around it.
#[derive(Clone, Debug)]
pub struct Enemy {
    pub size: Vec2i,
    pub deletable: bool,
    pub health: i32,
    pub texture_key: TextureKey,
    pub pos: Vec2i,
    pub start_pos: Vec2i,
    /// Health change the player takes on touching it: negative values hurt.
    pub damage: i16,
    /// Cell `(0, 0)` is the enemy's own hit collider; the others are sensors.
    pub colliders: Matrix<Collider>,
    pub state: EnemyState,
    pub waiters: EnemyWaiters,
    pub behavior: Vec<EnemyBehavior>,
    /// Velocity in pixels per second.
    pub speed: Vec2i,
    /// Drawn tinted red while set.
    pub damage_flash: bool,
}

/// `(row, col)` lies in the sensor grid.
pub open spec fn in_grid(row: int, col: int) -> bool {
    GRID_ROW_MIN <= row <= GRID_ROW_MAX && GRID_COL_MIN <= col <= GRID_COL_MAX
}

/// Offset of a cell from the enemy's anchor.
pub open spec fn cell_offset(size: Vec2i, row: int, col: int) -> Vec2i {
    Vec2i { x: (size.x * row) as i32, y: (size.y * col) as i32 }
}

/// Where a cell lies when the enemy stands at `pos`.
pub open spec fn cell_rect(pos: Vec2i, size: Vec2i, row: int, col: int) -> Rect {
    Rect {
        x: clamp_i32(pos.x + size.x * row) as i32,
        y: clamp_i32(pos.y + size.y * col) as i32,
        w: size.x,
        h: size.y,
    }
}

impl Enemy {
    /// Between frames: the grid is whole and no intent is queued.
    pub open spec fn wf(&self) -> bool {
        &&& self.grid_wf()
        &&& self.behavior@.len() == 0
    }

    /// The sensor grid covers every cell, the size fits the grid's offsets, and
    /// health is not negative.
    pub open spec fn grid_wf(&self) -> bool {
        &&& 0 <= self.size.x <= MAX_ENEMY_SIZE
        &&& 0 <= self.size.y <= MAX_ENEMY_SIZE
        &&& 0 <= self.health
        &&& forall|row: int, col: int|
            #[trigger] in_grid(row, col) ==> self.colliders@.contains_key((row as i32, col as i32))
        &&& forall|k: (i32, i32)| #[trigger] self.colliders@.contains_key(k) ==> in_grid(k.0 as int, k.1 as int)
    }

    /// The enemy's own hit collider.
    pub open spec fn hit_rect(&self) -> Rect {
        self.colliders@[(0i32, 0i32)].rect
    }

    pub open spec fn cell(&self, row: int, col: int) -> Collider {
        self.colliders@[(row as i32, col as i32)]
    }

    pub fn hit_rect_exec(&self) -> (r: Rect)
        requires
            self.grid_wf(),
        ensures
            r == self.hit_rect(),
    {
        assert(in_grid(0, 0));
        self.colliders.get(0, 0).unwrap().rect
    }

    /// A new idling enemy at `pos`; its sensor cells cover the grid around it,
    /// each one enemy in size, placed at `pos` plus the cell's offset.
    pub fn new(pos: Vec2i, damage: i16, size: Vec2i, texture_key: TextureKey) -> (r: Enemy)
        requires
            0 <= size.x <= MAX_ENEMY_SIZE,
            0 <= size.y <= MAX_ENEMY_SIZE,
        ensures
            r.wf(),
            r.health == ENEMY_HEALTH && !r.deletable && r.damage == damage,
            r.state == EnemyState::Idling,
            r.pos == pos && r.start_pos == pos && r.size == size && r.texture_key == texture_key,
            r.speed == (Vec2i { x: 0, y: 0 }) && r.behavior@.len() == 0 && !r.damage_flash,
            r.waiters == (EnemyWaiters {
                idling_right: true,
                jumping: false,
                damage_cooldown: Timer::Inactive,
                damage_overlay: Timer::Inactive,
            }),
            r.colliders@.dom() == Set::new(|k: (i32, i32)| in_grid(k.0 as int, k.1 as int)),
            r.cell(0, 0) == Collider::make(ColliderType::Enemy, pos, size.x, size.y, Vec2i { x: 0, y: 0 }),
            forall|row: int, col: int|
                #[trigger] in_grid(row, col) && (row, col) != (0int, 0int) ==> r.cell(row, col)
                    == (Collider {
                    rect: cell_rect(pos, size, row, col),
                    offset: cell_offset(size, row, col),
                    collider_type: ColliderType::Trigger,
                }),
    {
        let mut colliders: Matrix<Collider> = Matrix::new();
        let mut row: i32 = GRID_ROW_MIN;
        while row <= GRID_ROW_MAX
            invariant
                GRID_ROW_MIN <= row <= GRID_ROW_MAX + 1,
                0 <= size.x <= MAX_ENEMY_SIZE,
                0 <= size.y <= MAX_ENEMY_SIZE,
                colliders@.dom() == Set::new(
                    |k: (i32, i32)| in_grid(k.0 as int, k.1 as int) && k.0 < row,
                ),
                forall|r: int, c: int|
                    #[trigger] in_grid(r, c) && r < row ==> colliders@[(r as i32, c as i32)]
                        == Enemy::cell_spec(pos, size, r, c),
            decreases GRID_ROW_MAX + 1 - row,
        {
            let mut col: i32 = GRID_COL_MIN;
            while col <= GRID_COL_MAX
                invariant
                    GRID_ROW_MIN <= row <= GRID_ROW_MAX,
                    GRID_COL_MIN <= col <= GRID_COL_MAX + 1,
                    0 <= size.x <= MAX_ENEMY_SIZE,
                    0 <= size.y <= MAX_ENEMY_SIZE,
                    colliders@.dom() == Set::new(
                        |k: (i32, i32)|
                            in_grid(k.0 as int, k.1 as int) && (k.0 < row || (k.0 == row && k.1
                                < col)),
                    ),
                    forall|r: int, c: int|
                        #[trigger] in_grid(r, c) && (r < row || (r == row && c < col))
                            ==> colliders@[(r as i32, c as i32)] == Enemy::cell_spec(pos, size, r, c),
                decreases GRID_COL_MAX + 1 - col,
            {
                let cell = Enemy::make_cell(pos, size, row, col);
                let ghost before = colliders@;
                colliders.insert(row, col, cell);
                assert(colliders@.dom() =~= Set::new(
                    |k: (i32, i32)|
                        in_grid(k.0 as int, k.1 as int) && (k.0 < row || (k.0 == row && k.1 < col
                            + 1)),
                ));
                assert forall|r: int, c: int|
                    #[trigger] in_grid(r, c) && (r < row || (r == row && c < col + 1))
                        implies colliders@[(r as i32, c as i32)] == Enemy::cell_spec(pos, size, r, c) by {
                    if r == row && c == col {
                    } else {
                        assert((r as i32, c as i32) != (row, col));
                    }
                }
                col = col + 1;
            }
            assert(colliders@.dom() =~= Set::new(
                |k: (i32, i32)| in_grid(k.0 as int, k.1 as int) && k.0 < row + 1,
            ));
            row = row + 1;
        }
        assert(colliders@.dom() =~= Set::new(|k: (i32, i32)| in_grid(k.0 as int, k.1 as int)));
        assert(in_grid(0, 0));
        Enemy {
            size,
            deletable: false,
            health: ENEMY_HEALTH,
            texture_key,
            pos,
            start_pos: pos,
            damage,
            colliders,
            state: EnemyState::Idling,
            waiters: EnemyWaiters {
                idling_right: true,
                jumping: false,
                damage_cooldown: Timer::Inactive,
                damage_overlay: Timer::Inactive,
            },
            behavior: Vec::new(),
            speed: vec2i(0, 0),
            damage_flash: false,
        }
    }

    /// The collider that [`Enemy::new`] puts in a cell.
    pub open spec fn cell_spec(pos: Vec2i, size: Vec2i, row: int, col: int) -> Collider {
        if row == 0 && col == 0 {
            Collider::make(ColliderType::Enemy, pos, size.x, size.y, Vec2i { x: 0, y: 0 })
        } else {
            Collider {
                rect: cell_rect(pos, size, row, col),
                offset: cell_offset(size, row, col),
                collider_type: ColliderType::Trigger,
            }
        }
    }

    fn make_cell(pos: Vec2i, size: Vec2i, row: i32, col: i32) -> (r: Collider)
        requires
            0 <= size.x <= MAX_ENEMY_SIZE,
            0 <= size.y <= MAX_ENEMY_SIZE,
            in_grid(row as int, col as int),
        ensures
            r == Enemy::cell_spec(pos, size, row as int, col as int),
    {
        if row == 0 && col == 0 {
            Collider::new_enemy(pos, size.x, size.y, vec2i(0, 0))
        } else {
            proof {
                assert(-4 * MAX_ENEMY_SIZE <= size.x * row <= 4 * MAX_ENEMY_SIZE) by (nonlinear_arith)
                    requires
                        0 <= size.x <= MAX_ENEMY_SIZE,
                        -4 <= row <= 4,
                ;
                assert(-3 * MAX_ENEMY_SIZE <= size.y * col <= 3 * MAX_ENEMY_SIZE) by (nonlinear_arith)
                    requires
                        0 <= size.y <= MAX_ENEMY_SIZE,
                        -3 <= col <= 2,
                ;
            }
            let ox: i32 = size.x * row;
            let oy: i32 = size.y * col;
            Collider::new_trigger(pos, size.x, size.y, vec2i(ox, oy))
        }
    }
}

} // verus!

verus! {

/// `v` lies strictly between `a` and `b`.
pub open spec fn strictly_between(v: int, a: int, b: int) -> bool {
    (a < v && v < b) || (b < v && v < a)
}

/// The senses report cell `(row, col)` as blocked by a solid.
pub open spec fn blocked_at(blocked: Map<(i32, i32), bool>, row: int, col: int) -> bool {
    blocked.contains_key((row as i32, col as i32)) && blocked[(row as i32, col as i32)]
}

/// Line of sight to a cell: no blocked cell on the rows strictly between 0 and
/// `row` in column `col`, nor on the columns strictly between 0 and `col` in row `row`.
pub open spec fn visible_spec(blocked: Map<(i32, i32), bool>, row: int, col: int) -> bool {
    &&& forall|r: int| strictly_between(r, 0, row) ==> !#[trigger] blocked_at(blocked, r, col)
    &&& forall|c: int| strictly_between(c, 0, col) ==> !#[trigger] blocked_at(blocked, row, c)
}

fn is_blocked(blocked: &Matrix<bool>, row: i32, col: i32) -> (r: bool)
    ensures
        r == blocked_at(blocked@, row as int, col as int),
{
    match blocked.get(row, col) {
        Some(b) => *b,
        None => false,
    }
}

/// Horizontal intent of one frame: -1 left, 0 none, 1 right.
pub open spec fn move_speed(horizontal: int, walk: int) -> int {
    if horizontal > 0 {
        walk
    } else if horizontal < 0 {
        -walk
    } else {
        0
    }
}

/// Velocity after carrying out `intents` in order, starting from `start`.
pub open spec fn resolve_spec(intents: Seq<EnemyBehavior>, start: Vec2i, on_ground: bool, walk: int, jump: int) -> Vec2i
    decreases intents.len(),
{
    if intents.len() == 0 {
        start
    } else {
        let prev = resolve_spec(intents.drop_last(), start, on_ground, walk, jump);
        match intents.last() {
            EnemyBehavior::Move(Direction::Right) => Vec2i { x: walk as i32, ..prev },
            EnemyBehavior::Move(Direction::Left) => Vec2i { x: -walk as i32, ..prev },
            EnemyBehavior::Move(Direction::Up) => if on_ground {
                Vec2i { y: -jump as i32, ..prev }
            } else {
                prev
            },
            EnemyBehavior::Move(Direction::Down) => prev,
        }
    }
}

/// Carries out `intents` in order: left and right set the horizontal speed, up
/// sets the jump speed when grounded.
pub fn resolve_behavior(intents: &Vec<EnemyBehavior>, start: Vec2i, on_ground: bool, walk: i32, jump: i32) -> (r: Vec2i)
    requires
        0 <= walk,
        0 <= jump,
    ensures
        r == resolve_spec(intents@, start, on_ground, walk as int, jump as int),
{
    let mut cur = start;
    let mut i: usize = 0;
    while i < intents.len()
        invariant
            0 <= i <= intents@.len(),
            0 <= walk,
            0 <= jump,
            cur == resolve_spec(intents@.take(i as int), start, on_ground, walk as int, jump as int),
        decreases intents@.len() - i,
    {
        assert(intents@.take(i as int + 1).drop_last() =~= intents@.take(i as int));
        match intents[i] {
            EnemyBehavior::Move(Direction::Right) => {
                cur = Vec2i { x: walk, ..cur };
            },
            EnemyBehavior::Move(Direction::Left) => {
                cur = Vec2i { x: -walk, ..cur };
            },
            EnemyBehavior::Move(Direction::Up) => {
                if on_ground {
                    cur = Vec2i { y: -jump, ..cur };
                }
            },
            EnemyBehavior::Move(Direction::Down) => {},
        }
        i = i + 1;
    }
    assert(intents@.take(intents@.len() as int) =~= intents@);
    cur
}

impl Enemy {
    /// Cell `(row, col)` touches the player, and, where `check_sight` is set, is in
    /// line of sight.
    pub open spec fn sees(self, player: Player, blocked: Map<(i32, i32), bool>, row: int, col: int, check_sight: bool) -> bool {
        self.cell(row, col).rect.overlaps_spec(player.collider_new.rect) && (check_sight
            ==> visible_spec(blocked, row, col))
    }

    /// Some cell in the given block of rows and columns sees the player.
    pub open spec fn scan_spec(self, player: Player, blocked: Map<(i32, i32), bool>, r_lo: int, r_hi: int, c_lo: int, c_hi: int, check_sight: bool) -> bool {
        exists|r: int, c: int|
            r_lo <= r <= r_hi && c_lo <= c <= c_hi && #[trigger] self.sees(
                player,
                blocked,
                r,
                c,
                check_sight,
            )
    }

    /// Whether cell `(row, col)` is in line of sight: no cell strictly between it and
    /// the enemy, first along its column and then along its row, is blocked.
    pub fn tile_visible(&self, blocked: &Matrix<bool>, row: i32, col: i32) -> (r: bool)
        ensures
            r == visible_spec(blocked@, row as int, col as int),
    {
        let lo: i32 = if row < 0 { row } else { 0 };
        let hi: i32 = if row < 0 { 0 } else { row };
        let mut r: i32 = lo + 1;
        while r < hi
            invariant
                lo + 1 <= r <= hi || (r == lo + 1 && hi <= lo + 1),
                lo == (if row < 0 { row } else { 0 }),
                hi == (if row < 0 { 0 } else { row }),
                forall|k: int| lo < k < r ==> !#[trigger] blocked_at(blocked@, k, col as int),
            decreases hi - r,
        {
            if is_blocked(blocked, r, col) {
                assert(strictly_between(r as int, 0, row as int));
                return false;
            }
            r = r + 1;
        }
        let lo: i32 = if col < 0 { col } else { 0 };
        let hi: i32 = if col < 0 { 0 } else { col };
        let mut c: i32 = lo + 1;
        while c < hi
            invariant
                lo + 1 <= c <= hi || (c == lo + 1 && hi <= lo + 1),
                lo == (if col < 0 { col } else { 0 }),
                hi == (if col < 0 { 0 } else { col }),
                forall|k: int| strictly_between(k, 0, row as int) ==> !#[trigger] blocked_at(blocked@, k, col as int),
                forall|k: int| lo < k < c ==> !#[trigger] blocked_at(blocked@, row as int, k),
            decreases hi - c,
        {
            if is_blocked(blocked, row, c) {
                assert(strictly_between(c as int, 0, col as int));
                return false;
            }
            c = c + 1;
        }
        true
    }

    /// Whether some cell with row in `r_lo..=r_hi` and column in `c_lo..=c_hi`
    /// touches the player (and, with `check_sight`, is in line of sight).
    fn scan(&self, player: &Player, blocked: &Matrix<bool>, r_lo: i32, r_hi: i32, c_lo: i32, c_hi: i32, check_sight: bool) -> (r: bool)
        requires
            self.grid_wf(),
            GRID_ROW_MIN <= r_lo,
            r_hi <= GRID_ROW_MAX,
            GRID_COL_MIN <= c_lo,
            c_hi <= GRID_COL_MAX,
        ensures
            r == self.scan_spec(*player, blocked@, r_lo as int, r_hi as int, c_lo as int, c_hi as int, check_sight),
    {
        let mut row: i32 = r_lo;
        while row <= r_hi
            invariant
                self.grid_wf(),
                GRID_ROW_MIN <= r_lo <= row,
                row <= r_hi + 1 || row == r_lo,
                r_hi <= GRID_ROW_MAX,
                GRID_COL_MIN <= c_lo,
                c_hi <= GRID_COL_MAX,
                forall|r: int, c: int|
                    r_lo <= r < row && c_lo <= c <= c_hi ==> !#[trigger] self.sees(
                        *player,
                        blocked@,
                        r,
                        c,
                        check_sight,
                    ),
            decreases r_hi + 1 - row,
        {
            let mut col: i32 = c_lo;
            while col <= c_hi
                invariant
                    self.grid_wf(),
                    GRID_ROW_MIN <= r_lo <= row <= r_hi,
                    r_hi <= GRID_ROW_MAX,
                    GRID_COL_MIN <= c_lo <= col,
                    col <= c_hi + 1 || col == c_lo,
                    c_hi <= GRID_COL_MAX,
                    forall|r: int, c: int|
                        r_lo <= r < row && c_lo <= c <= c_hi ==> !#[trigger] self.sees(
                            *player,
                            blocked@,
                            r,
                            c,
                            check_sight,
                        ),
                    forall|c: int|
                        c_lo <= c < col ==> !#[trigger] self.sees(
                            *player,
                            blocked@,
                            row as int,
                            c,
                            check_sight,
                        ),
                decreases c_hi + 1 - col,
            {
                assert(in_grid(row as int, col as int));
                let cell = self.colliders.get(row, col).unwrap();
                if cell.touching_player(player) {
                    if !check_sight || self.tile_visible(blocked, row, col) {
                        assert(self.sees(*player, blocked@, row as int, col as int, check_sight));
                        return true;
                    }
                }
                col = col + 1;
            }
            row = row + 1;
        }
        false
    }
}

} // verus!

verus! {

/// Health after a change of `delta`, held to `0..=i32::MAX`.
pub open spec fn enemy_health_after(health: int, delta: int) -> int {
    if health + delta < 0 {
        0
    } else if health + delta > i32::MAX {
        i32::MAX as int
    } else {
        health + delta
    }
}

impl Enemy {
    /// Whether a hit at `now` falls in the invulnerability window of the last one.
    pub open spec fn in_cooldown(self, now: u64) -> bool {
        self.waiters.damage_cooldown.running_spec(DAMAGE_COOLDOWN_MS, now)
    }

    /// The enemy after a player's shot with health change `damage` at `now`.
    pub open spec fn after_hit(self, damage: i16, now: u64) -> Enemy {
        if self.in_cooldown(now) {
            self
        } else {
            let h = enemy_health_after(self.health as int, damage as int);
            Enemy {
                health: h as i32,
                deletable: self.deletable || h == 0,
                waiters: EnemyWaiters {
                    damage_overlay: Timer::Active { since: now },
                    damage_cooldown: Timer::Active { since: now },
                    ..self.waiters
                },
                ..self
            }
        }
    }

    /// The player after landing that shot: the dealt total grows by the damage, and
    /// a kill is counted when the shot brings the enemy to exactly 0.
    pub open spec fn player_after_hit(self, player: Player, damage: i16, now: u64) -> Player {
        if self.in_cooldown(now) {
            player
        } else {
            let h = enemy_health_after(self.health as int, damage as int);
            Player {
                kills: if h == 0 {
                    sat_inc_u32(player.kills as int) as u32
                } else {
                    player.kills
                },
                total_damage: sat_add_u64(
                    player.total_damage as int,
                    if damage < 0 {
                        -damage
                    } else {
                        0
                    },
                ) as u64,
                ..player
            }
        }
    }

    /// Takes a player's shot with health change `damage` (negative hurts) at `now`.
    /// Outside the cooldown window health changes (never below 0), the flash and
    /// the cooldown restart, the player's dealt total grows, and on reaching 0 the
    /// enemy becomes deletable and the player gains a kill. Inside it nothing changes.
    pub fn take_hit(&mut self, damage: i16, player: &mut Player, now: u64)
        ensures
            *final(self) == old(self).after_hit(damage, now),
            *final(player) == old(self).player_after_hit(*old(player), damage, now),
    {
        if !self.waiters.damage_cooldown.running(DAMAGE_COOLDOWN_MS, now) {
            let h: i64 = self.health as i64 + damage as i64;
            self.health = if h < 0 {
                0
            } else if h > i32::MAX as i64 {
                i32::MAX
            } else {
                h as i32
            };
            if self.health == 0 {
                player.kills = player.kills.saturating_add(1);
                self.deletable = true;
            }
            let dealt: u64 = if damage < 0 {
                (-(damage as i32)) as u64
            } else {
                0
            };
            player.total_damage = player.total_damage.saturating_add(dealt);
            self.waiters.damage_overlay = Timer::Active { since: now };
            self.waiters.damage_cooldown = Timer::Active { since: now };
        }
    }

    /// Ground and ceiling bookkeeping at the start of a frame.
    pub open spec fn after_physics(self, senses: EnemySenses, dt_ms: u32, scale_milli: u16) -> Enemy {
        let y1 = if senses.sealing_hit {
            frame_step_spec(scaled_spec(100, scale_milli as int), dt_ms as int)
        } else {
            self.speed.y as int
        };
        if !senses.on_ground {
            Enemy {
                speed: Vec2i {
                    y: clamp_i32(y1 + frame_step_spec(scaled_spec(4800, scale_milli as int), dt_ms as int)) as i32,
                    ..self.speed
                },
                ..self
            }
        } else {
            Enemy {
                speed: Vec2i { y: 0, ..self.speed },
                waiters: EnemyWaiters { jumping: false, ..self.waiters },
                ..self
            }
        }
    }

    /// Ends the cooldown and the flash whose time is over.
    pub open spec fn after_timers(self, now: u64) -> Enemy {
        let cooldown = if self.waiters.damage_cooldown.elapsed_spec(DAMAGE_COOLDOWN_MS, now) {
            Timer::Inactive
        } else {
            self.waiters.damage_cooldown
        };
        let overlay_done = self.waiters.damage_overlay.elapsed_spec(DAMAGE_OVERLAY_MS, now);
        Enemy {
            waiters: EnemyWaiters {
                damage_cooldown: cooldown,
                damage_overlay: if overlay_done {
                    Timer::Inactive
                } else {
                    self.waiters.damage_overlay
                },
                ..self.waiters
            },
            damage_flash: if self.waiters.damage_overlay is Active {
                !overlay_done
            } else {
                self.damage_flash
            },
            ..self
        }
    }

    /// A shot of the player overlapping the enemy's own cell.
    pub open spec fn shot_by_player(self, projectiles: Seq<Projectile>) -> spec_fn(int) -> bool {
        |i: int|
            self.hit_rect().overlaps_spec(projectiles[i].collider.rect) && projectiles[i].origin
                == ProjectileOrigin::Player
    }

    /// Whether any of the player's shots overlaps the enemy's own cell.
    pub open spec fn is_shot(self, projectiles: Seq<Projectile>) -> bool {
        exists|i: int| 0 <= i < projectiles.len() && #[trigger] self.shot_by_player(projectiles)(i)
    }

    /// The damage of the first such shot.
    pub open spec fn first_shot_damage(self, projectiles: Seq<Projectile>) -> i16 {
        projectiles[first_hit(projectiles.len() as int, self.shot_by_player(projectiles))].damage
    }

    /// Finds the first of the player's shots that overlaps the enemy's own cell.
    fn find_shot(&self, projectiles: &Vec<Projectile>) -> (r: Option<usize>)
        requires
            self.grid_wf(),
        ensures
            r.is_some() == self.is_shot(projectiles@),
            r.is_some() ==> is_first_hit(r.unwrap() as int, projectiles@.len() as int, self.shot_by_player(projectiles@)),
    {
        let hit = self.hit_rect_exec();
        let mut i: usize = 0;
        while i < projectiles.len()
            invariant
                0 <= i <= projectiles@.len(),
                hit == self.hit_rect(),
                forall|k: int| 0 <= k < i ==> !#[trigger] self.shot_by_player(projectiles@)(k),
            decreases projectiles@.len() - i,
        {
            if hit.overlaps(&projectiles[i].collider.rect) && projectiles[i].origin == ProjectileOrigin::Player {
                assert(self.shot_by_player(projectiles@)(i as int));
                return Some(i);
            }
            i = i + 1;
        }
        None
    }
}

} // verus!

verus! {

/// What one frame of the AI leaves behind: the queued intents, the mode, the
/// patrol direction (set: right) and the jump latch.
pub type AiPlan = (Seq<EnemyBehavior>, EnemyState, bool, bool);

impl Enemy {
    /// An idling enemy notices the player: a cell within `IDLE_SIGHT` rows touches
    /// the player and is in line of sight.
    pub open spec fn idle_sighted(self, player: Player, blocked: Map<(i32, i32), bool>) -> bool {
        self.scan_spec(player, blocked, -IDLE_SIGHT as int, IDLE_SIGHT as int, GRID_COL_MIN as int, GRID_COL_MAX as int, true)
    }

    /// A sighted cell on the right (row above 0).
    pub open spec fn sighted_right(self, player: Player, blocked: Map<(i32, i32), bool>) -> bool {
        self.scan_spec(player, blocked, 1, GRID_ROW_MAX as int, GRID_COL_MIN as int, GRID_COL_MAX as int, true)
    }

    /// A sighted cell on the left (row below 0).
    pub open spec fn sighted_left(self, player: Player, blocked: Map<(i32, i32), bool>) -> bool {
        self.scan_spec(player, blocked, GRID_ROW_MIN as int, -1, GRID_COL_MIN as int, GRID_COL_MAX as int, true)
    }

    /// The player touches a cell well above and off to a side (column below -1,
    /// row below -1 or above 1); sight is not needed.
    pub open spec fn player_above(self, player: Player) -> bool {
        self.scan_spec(player, Map::empty(), GRID_ROW_MIN as int, -2, GRID_COL_MIN as int, -2, false)
            || self.scan_spec(player, Map::empty(), 2, GRID_ROW_MAX as int, GRID_COL_MIN as int, -2, false)
    }

    /// The AI's decision for one frame.
    pub open spec fn plan_spec(self, senses: EnemySenses, player: Player) -> AiPlan {
        let blocked = senses.blocked@;
        let base = self.behavior@;
        let wall = senses.touching_wall;
        let jumping = self.waiters.jumping || wall;
        let with_up = if wall { base.push(EnemyBehavior::Move(Direction::Up)) } else { base };
        match self.state {
            EnemyState::Idling => if self.idle_sighted(player, blocked) {
                (Seq::empty(), EnemyState::Attacking, self.waiters.idling_right, self.waiters.jumping)
            } else if self.waiters.idling_right {
                if senses.ground_ahead_right || jumping {
                    (with_up.push(EnemyBehavior::Move(Direction::Right)), EnemyState::Idling, true, jumping)
                } else {
                    (with_up, EnemyState::Idling, false, jumping)
                }
            } else {
                if senses.ground_ahead_left || jumping {
                    (with_up.push(EnemyBehavior::Move(Direction::Left)), EnemyState::Idling, false, jumping)
                } else {
                    (with_up, EnemyState::Idling, true, jumping)
                }
            },
            EnemyState::Attacking => {
                let ups = if self.player_above(player) {
                    with_up.push(EnemyBehavior::Move(Direction::Up))
                } else {
                    with_up
                };
                if self.hit_rect().overlaps_spec(player.collider_new.rect) {
                    (ups, EnemyState::Attacking, self.waiters.idling_right, jumping)
                } else if self.sighted_right(player, blocked) {
                    (ups.push(EnemyBehavior::Move(Direction::Right)), EnemyState::Attacking, true, jumping)
                } else if self.sighted_left(player, blocked) {
                    (ups.push(EnemyBehavior::Move(Direction::Left)), EnemyState::Attacking, false, jumping)
                } else {
                    (ups, EnemyState::Idling, self.waiters.idling_right, jumping)
                }
            },
        }
    }

    /// Runs the AI for one frame: queues intents and updates the mode, the patrol
    /// direction and the jump latch.
    ///
    /// Idling, it turns to pursuit as soon as a cell within reach sees the player
    /// (dropping what was queued); otherwise it jumps at walls and patrols, turning
    /// around where the ground ahead ends. Pursuing, it jumps at walls and when the
    /// player is above, walks toward the side that sees the player, stands still
    /// while touching the player, and falls back to idling when it sees nothing.
    pub fn plan(&mut self, senses: &EnemySenses, player: &Player)
        requires
            old(self).grid_wf(),
        ensures
            final(self).grid_wf(),
            final(self).behavior@ == old(self).plan_spec(*senses, *player).0,
            final(self).state == old(self).plan_spec(*senses, *player).1,
            final(self).waiters == (EnemyWaiters {
                idling_right: old(self).plan_spec(*senses, *player).2,
                jumping: old(self).plan_spec(*senses, *player).3,
                ..old(self).waiters
            }),
            final(self).colliders == old(self).colliders,
            final(self).health == old(self).health && final(self).deletable == old(self).deletable,
            final(self).pos == old(self).pos && final(self).speed == old(self).speed,
            final(self).size == old(self).size && final(self).start_pos == old(self).start_pos,
            final(self).damage == old(self).damage && final(self).texture_key == old(self).texture_key,
            final(self).damage_flash == old(self).damage_flash,
    {
        let blocked = &senses.blocked;
        let wall = senses.touching_wall;
        match self.state {
            EnemyState::Idling => {
                if self.scan(player, blocked, -IDLE_SIGHT, IDLE_SIGHT, GRID_COL_MIN, GRID_COL_MAX, true) {
                    self.state = EnemyState::Attacking;
                    self.behavior.clear();
                } else {
                    if wall {
                        self.behavior.push(EnemyBehavior::Move(Direction::Up));
                        self.waiters.jumping = true;
                    }
                    if self.waiters.idling_right {
                        if senses.ground_ahead_right || self.waiters.jumping {
                            self.waiters.idling_right = true;
                            self.behavior.push(EnemyBehavior::Move(Direction::Right));
                        } else {
                            self.waiters.idling_right = false;
                        }
                    } else {
                        if senses.ground_ahead_left || self.waiters.jumping {
                            self.waiters.idling_right = false;
                            self.behavior.push(EnemyBehavior::Move(Direction::Left));
                        } else {
                            self.waiters.idling_right = true;
                        }
                    }
                }
            },
            EnemyState::Attacking => {
                let empty: Matrix<bool> = Matrix::new();
                let above = self.scan(player, &empty, GRID_ROW_MIN, -2, GRID_COL_MIN, -2, false)
                    || self.scan(player, &empty, 2, GRID_ROW_MAX, GRID_COL_MIN, -2, false);
                let center = self.hit_rect_exec().overlaps(&player.collider_new.rect);
                let right = self.scan(player, blocked, 1, GRID_ROW_MAX, GRID_COL_MIN, GRID_COL_MAX, true);
                let left = self.scan(player, blocked, GRID_ROW_MIN, -1, GRID_COL_MIN, GRID_COL_MAX, true);
                if wall {
                    self.behavior.push(EnemyBehavior::Move(Direction::Up));
                    self.waiters.jumping = true;
                }
                if above {
                    self.behavior.push(EnemyBehavior::Move(Direction::Up));
                }
                if center {
                } else if right {
                    self.behavior.push(EnemyBehavior::Move(Direction::Right));
                    self.waiters.idling_right = true;
                } else if left {
                    self.behavior.push(EnemyBehavior::Move(Direction::Left));
                    self.waiters.idling_right = false;
                } else {
                    self.state = EnemyState::Idling;
                }
            },
        }
    }
}

} // verus!

verus! {

/// Where a cell's collider goes when the enemy's anchor moves to `pos`.
pub open spec fn placed(c: Collider, pos: Vec2i) -> Collider {
    Collider {
        rect: Rect {
            x: clamp_i32(pos.x + c.offset.x) as i32,
            y: clamp_i32(pos.y + c.offset.y) as i32,
            ..c.rect
        },
        ..c
    }
}

/// Moves every cell to `pos` plus its offset.
fn place_cells(colliders: &mut Matrix<Collider>, pos: Vec2i)
    requires
        forall|k: (i32, i32)| #[trigger] old(colliders)@.contains_key(k) <==> in_grid(k.0 as int, k.1 as int),
    ensures
        final(colliders)@.dom() == old(colliders)@.dom(),
        forall|k: (i32, i32)|
            #[trigger] old(colliders)@.contains_key(k) ==> final(colliders)@[k] == placed(old(colliders)@[k], pos),
{
    let ghost start = old(colliders)@;
    let mut row: i32 = GRID_ROW_MIN;
    while row <= GRID_ROW_MAX
        invariant
            GRID_ROW_MIN <= row <= GRID_ROW_MAX + 1,
            colliders@.dom() == start.dom(),
            forall|k: (i32, i32)| #[trigger] start.contains_key(k) <==> in_grid(k.0 as int, k.1 as int),
            forall|k: (i32, i32)|
                #[trigger] start.contains_key(k) ==> colliders@[k] == if k.0 < row {
                    placed(start[k], pos)
                } else {
                    start[k]
                },
        decreases GRID_ROW_MAX + 1 - row,
    {
        let mut col: i32 = GRID_COL_MIN;
        while col <= GRID_COL_MAX
            invariant
                GRID_ROW_MIN <= row <= GRID_ROW_MAX,
                GRID_COL_MIN <= col <= GRID_COL_MAX + 1,
                colliders@.dom() == start.dom(),
                forall|k: (i32, i32)| #[trigger] start.contains_key(k) <==> in_grid(k.0 as int, k.1 as int),
                forall|k: (i32, i32)|
                    #[trigger] start.contains_key(k) ==> colliders@[k] == if k.0 < row || (k.0 == row && k.1
                        < col) {
                        placed(start[k], pos)
                    } else {
                        start[k]
                    },
            decreases GRID_COL_MAX + 1 - col,
        {
            assert(start.contains_key((row, col)));
            let c = *colliders.get(row, col).unwrap();
            let x = add_clamped(pos.x, c.offset.x as i64);
            let y = add_clamped(pos.y, c.offset.y as i64);
            let moved = Collider { rect: Rect { x, y, ..c.rect }, ..c };
            colliders.insert(row, col, moved);
            assert(colliders@.dom() =~= start.dom());
            col = col + 1;
        }
        row = row + 1;
    }
}

/// What one frame of [`Enemy::tick`] guarantees, from `old` and `p_old` to `new`,
/// `p_new` and the returned `motion`.
pub open spec fn tick_post(
    new: Enemy,
    old: Enemy,
    senses: EnemySenses,
    p_old: Player,
    p_new: Player,
    projectiles: Seq<Projectile>,
    now: u64,
    dt_ms: u32,
    scale_milli: u16,
    motion: Vec2i,
) -> bool {
    let e = old.before_plan(senses, projectiles, now, dt_ms, scale_milli);
    let p = old.player_after_tick(senses, p_old, projectiles, now, dt_ms, scale_milli);
    let plan = e.plan_spec(senses, p);
    let v = resolve_spec(
        plan.0,
        Vec2i { x: 0, y: e.speed.y },
        senses.on_ground,
        scaled_spec(ENEMY_SPEED as int, scale_milli as int),
        scaled_spec(ENEMY_JUMP_SPEED as int, scale_milli as int),
    );
    &&& p_new == p
    &&& new.speed == v
    &&& new.behavior@.len() == 0
    &&& new.state == plan.1
    &&& new.waiters == (EnemyWaiters { idling_right: plan.2, jumping: plan.3, ..e.waiters })
    &&& new.health == e.health
    &&& new.deletable == e.deletable
    &&& new.damage_flash == e.damage_flash
    &&& new.colliders == old.colliders
    &&& new.pos == old.pos
    &&& new.size == old.size
    &&& new.start_pos == old.start_pos
    &&& new.damage == old.damage
    &&& new.texture_key == old.texture_key
    &&& motion == (Vec2i {
        x: frame_step_spec(v.x as int, dt_ms as int) as i32,
        y: frame_step_spec(v.y as int, dt_ms as int) as i32,
    })
}

/// `new` is `old` with its anchor at `pos` and every cell placed around it.
pub open spec fn moved_to(new: Enemy, old: Enemy, pos: Vec2i) -> bool {
    &&& new.pos == pos
    &&& new.colliders@.dom() == old.colliders@.dom()
    &&& forall|k: (i32, i32)|
        #[trigger] old.colliders@.contains_key(k) ==> new.colliders@[k] == placed(old.colliders@[k], pos)
    &&& new.health == old.health && new.deletable == old.deletable
    &&& new.state == old.state && new.waiters == old.waiters
    &&& new.speed == old.speed && new.size == old.size
    &&& new.start_pos == old.start_pos && new.damage == old.damage
    &&& new.behavior == old.behavior && new.damage_flash == old.damage_flash
    &&& new.texture_key == old.texture_key
}

impl Enemy {
    /// The enemy after the bookkeeping, timer and hit phases of a frame.
    pub open spec fn before_plan(self, senses: EnemySenses, projectiles: Seq<Projectile>, now: u64, dt_ms: u32, scale_milli: u16) -> Enemy {
        let e = self.after_physics(senses, dt_ms, scale_milli).after_timers(now);
        if e.is_shot(projectiles) {
            e.after_hit(e.first_shot_damage(projectiles), now)
        } else {
            e
        }
    }

    /// The player after the hit phase of the enemy's frame.
    pub open spec fn player_after_tick(self, senses: EnemySenses, player: Player, projectiles: Seq<Projectile>, now: u64, dt_ms: u32, scale_milli: u16) -> Player {
        let e = self.after_physics(senses, dt_ms, scale_milli).after_timers(now);
        if e.is_shot(projectiles) {
            e.player_after_hit(player, e.first_shot_damage(projectiles), now)
        } else {
            player
        }
    }

    fn physics_step(&mut self, senses: &EnemySenses, dt_ms: u32, scale_milli: u16)
        ensures
            *final(self) == old(self).after_physics(*senses, dt_ms, scale_milli),
    {
        if senses.sealing_hit {
            let bounce = scaled(100, scale_milli);
            self.speed.y = frame_step(bounce, dt_ms);
        }
        if !senses.on_ground {
            let fall = frame_step(scaled(4800, scale_milli), dt_ms);
            self.speed.y = add_clamped(self.speed.y, fall as i64);
        } else {
            self.waiters.jumping = false;
            self.speed.y = 0;
        }
    }

    fn timer_step(&mut self, now: u64)
        ensures
            *final(self) == old(self).after_timers(now),
    {
        if self.waiters.damage_cooldown.elapsed(DAMAGE_COOLDOWN_MS, now) {
            self.waiters.damage_cooldown = Timer::Inactive;
        }
        if self.waiters.damage_overlay.is_active() {
            self.damage_flash = true;
            if self.waiters.damage_overlay.elapsed(DAMAGE_OVERLAY_MS, now) {
                self.damage_flash = false;
                self.waiters.damage_overlay = Timer::Inactive;
            }
        }
    }

    fn hit_step(&mut self, player: &mut Player, projectiles: &Vec<Projectile>, now: u64)
        requires
            old(self).wf(),
        ensures
            final(self).wf(),
            old(self).is_shot(projectiles@) ==> *final(self) == old(self).after_hit(old(self).first_shot_damage(projectiles@), now)
                && *final(player) == old(self).player_after_hit(*old(player), old(self).first_shot_damage(projectiles@), now),
            !old(self).is_shot(projectiles@) ==> *final(self) == *old(self) && *final(player) == *old(player),
    {
        match self.find_shot(projectiles) {
            Some(i) => {
                proof {
                    crate::player::lemma_first_hit_unique(i as int, projectiles@.len() as int, self.shot_by_player(projectiles@));
                }
                self.take_hit(projectiles[i].damage, player, now);
            },
            None => {},
        }
    }

    /// The bookkeeping, timer and hit phases of [`Enemy::tick`].
    fn prepare(
        &mut self,
        senses: &EnemySenses,
        player: &mut Player,
        projectiles: &Vec<Projectile>,
        now: u64,
        dt_ms: u32,
        scale_milli: u16,
    )
        requires
            old(self).wf(),
        ensures
            final(self).wf(),
            *final(self) == old(self).before_plan(*senses, projectiles@, now, dt_ms, scale_milli),
            *final(player) == old(self).player_after_tick(*senses, *old(player), projectiles@, now, dt_ms, scale_milli),
    {
        self.physics_step(senses, dt_ms, scale_milli);
        self.timer_step(now);
        self.hit_step(player, projectiles, now);
    }

    /// One frame of an enemy, between the senses gathered from the physics backend
    /// and the movement it asks the backend to commit (returned, horizontal first).
    ///
    /// In order: ground and ceiling bookkeeping (gravity in the air, the jump latch
    /// cleared on the ground); the cooldown and flash timers; the first of the
    /// player's shots that overlaps the enemy's own cell is taken as a hit; the AI
    /// plans; the queued intents become the velocity and the queue is emptied.
    pub fn tick(
        &mut self,
        senses: &EnemySenses,
        player: &mut Player,
        projectiles: &Vec<Projectile>,
        now: u64,
        dt_ms: u32,
        scale_milli: u16,
    ) -> (motion: Vec2i)
        requires
            old(self).wf(),
        ensures
            final(self).wf(),
            tick_post(*final(self), *old(self), *senses, *old(player), *final(player), projectiles@, now, dt_ms, scale_milli, motion),
    {
        self.prepare(senses, player, projectiles, now, dt_ms, scale_milli);
        // decisions
        self.plan(senses, player);
        let walk = scaled(ENEMY_SPEED, scale_milli);
        let jump = scaled(ENEMY_JUMP_SPEED, scale_milli);
        let v = resolve_behavior(&self.behavior, vec2i(0, self.speed.y), senses.on_ground, walk, jump);
        self.speed = v;
        self.behavior.clear();
        vec2i(frame_step(v.x, dt_ms), frame_step(v.y, dt_ms))
    }

    /// Moves the enemy's anchor to `pos` (where the physics backend put it) and every
    /// sensor cell to `pos` plus the cell's offset.
    pub fn update_pos(&mut self, pos: Vec2i)
        requires
            old(self).wf(),
        ensures
            final(self).wf(),
            moved_to(*final(self), *old(self), pos),
    {
        self.pos = pos;
        place_cells(&mut self.colliders, pos);
    }
}

} // verus!

verus! {

/// A hit that brings an enemy to exactly 0 health counts one kill and makes the
/// enemy deletable; a hit that leaves health above 0 counts no kill and leaves the
/// deletable flag as it was.
pub proof fn lemma_death_bookkeeping(e: Enemy, p: Player, damage: i16, now: u64)
    requires
        !e.in_cooldown(now),
        p.kills < u32::MAX,
    ensures
        e.after_hit(damage, now).health == 0 ==> e.player_after_hit(p, damage, now).kills == p.kills + 1
            && e.after_hit(damage, now).deletable,
        e.after_hit(damage, now).health > 0 ==> e.player_after_hit(p, damage, now).kills == p.kills
            && e.after_hit(damage, now).deletable == e.deletable,
{
}

/// A blocked cell strictly between the enemy and a cell, on the path the sight test
/// walks, hides that cell.
pub proof fn lemma_occluded_cell_hidden(blocked: Map<(i32, i32), bool>, row: int, col: int, q: int)
    requires
        strictly_between(q, 0, row),
        blocked_at(blocked, q, col),
    ensures
        !visible_spec(blocked, row, col),
{
}

/// An idling enemy whose every cell touching the player is hidden behind a blocked
/// cell on the same column path does not start attacking.
pub proof fn lemma_occluded_player_ignored(e: Enemy, senses: EnemySenses, player: Player)
    requires
        e.state == EnemyState::Idling,
        forall|r: int, c: int|
            -IDLE_SIGHT <= r <= IDLE_SIGHT && GRID_COL_MIN <= c <= GRID_COL_MAX && #[trigger] e.cell(r, c).rect.overlaps_spec(
                player.collider_new.rect,
            ) ==> exists|q: int| strictly_between(q, 0, r) && #[trigger] blocked_at(senses.blocked@, q, c),
    ensures
        e.plan_spec(senses, player).1 == EnemyState::Idling,
{
    assert forall|r: int, c: int|
        -IDLE_SIGHT <= r <= IDLE_SIGHT && GRID_COL_MIN <= c <= GRID_COL_MAX implies !#[trigger] e.sees(
        player,
        senses.blocked@,
        r,
        c,
        true,
    ) by {
        if e.cell(r, c).rect.overlaps_spec(player.collider_new.rect) {
            let q = choose|q: int| strictly_between(q, 0, r) && #[trigger] blocked_at(senses.blocked@, q, c);
            lemma_occluded_cell_hidden(senses.blocked@, r, c, q);
        }
    }
}

} // verus!

verus! {

/// Patrol: an idling enemy that does not notice the player, touches no wall and is
/// not jumping keeps its direction and walks on while there is ground ahead that
/// way, and turns around, standing still for the frame, where the ground ends.
pub proof fn lemma_patrol_turns_at_ledge(e: Enemy, senses: EnemySenses, player: Player, y: i32, walk: int, jump: int)
    requires
        e.wf(),
        e.state == EnemyState::Idling,
        !e.idle_sighted(player, senses.blocked@),
        !senses.touching_wall,
        !e.waiters.jumping,
        0 <= walk <= i32::MAX,
        0 <= jump,
    ensures
        ({
            let plan = e.plan_spec(senses, player);
            let right = e.waiters.idling_right;
            let ahead = if right { senses.ground_ahead_right } else { senses.ground_ahead_left };
            let v = resolve_spec(plan.0, Vec2i { x: 0, y }, senses.on_ground, walk, jump);
            &&& plan.1 == EnemyState::Idling
            &&& !ahead ==> plan.2 == !right && v.x == 0
            &&& ahead ==> plan.2 == right && v.x == (if right { walk } else { -walk })
        }),
{
    reveal_with_fuel(resolve_spec, 2);
    let m = if e.waiters.idling_right {
        EnemyBehavior::Move(Direction::Right)
    } else {
        EnemyBehavior::Move(Direction::Left)
    };
    assert(e.behavior@ =~= Seq::<EnemyBehavior>::empty());
    assert(Seq::<EnemyBehavior>::empty().push(m).drop_last() =~= Seq::<EnemyBehavior>::empty());
}

} // verus!

verus! {

/// Within an enemy's frame: when the first of the player's shots overlapping it
/// carries exactly its health as damage and no cooldown runs, the enemy ends at 0
/// health and deletable, and the player gains one kill and that much dealt damage.
pub proof fn lemma_one_hit_kill_in_tick(
    e: Enemy,
    senses: EnemySenses,
    player: Player,
    projectiles: Seq<Projectile>,
    now: u64,
    dt_ms: u32,
    scale_milli: u16,
)
    requires
        e.wf(),
        e.health > 0,
        ({
            let e2 = e.after_physics(senses, dt_ms, scale_milli).after_timers(now);
            &&& e2.is_shot(projectiles)
            &&& !e2.in_cooldown(now)
            &&& e2.first_shot_damage(projectiles) == -e.health
        }),
        player.kills < u32::MAX,
        player.total_damage + e.health <= u64::MAX,
    ensures
        ({
            let after = e.before_plan(senses, projectiles, now, dt_ms, scale_milli);
            let p = e.player_after_tick(senses, player, projectiles, now, dt_ms, scale_milli);
            &&& after.health == 0
            &&& after.deletable
            &&& p.kills == player.kills + 1
            &&& p.total_damage == player.total_damage + e.health
        }),
{
}

} // verus!
