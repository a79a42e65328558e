use vstd::prelude::*;

verus! {

/// A cardinal direction.
#[derive(Clone, Copy, Debug, PartialEq, Eq, Structural, PartialOrd, Ord, Hash)]
pub enum Direction {
    Right,
    Left,
    Up,
    Down,
}

/// Textures of the scenes, loaded and dropped scene by scene.
#[derive(Clone, Copy, Debug, PartialEq, Eq, Structural, PartialOrd, Ord, Hash)]
pub enum SceneTextureKey {
    MainMenu,
    LevelSelector,
    SettingsMenu,
    Level0,
    Level1,
    Level2,
    Level3,
}

/// All textures an entity can be drawn with.
#[derive(Clone, Copy, Debug, PartialEq, Eq, Structural, PartialOrd, Ord, Hash)]
pub enum TextureKey {
    Player,
    Enemy0,
    Projectile0,
    Platform0,
    Coin0,
    PowerUps0,
    Icons0,
    Cannon0,
    Button0,
}

/// The screens of the game.
#[derive(Clone, Copy, Debug, PartialEq, Eq, Structural)]
pub enum Scene {
    MainMenu,
    SettingsMenu,
    /// The page of the selector.
    LevelSelector(i32),
    Level(crate::level::Level),
}

} // verus!

verus! {

/// How an animation advances.
#[derive(Clone, Copy, Debug, PartialEq, Eq, Structural)]
pub enum AnimationType {
    /// Runs through frames `start..=end` and starts over, one frame every
    /// `speed` milliseconds.
    Cycle(u32, u32, u64),
}

/// The state of an animation: which frame shows and when it last advanced.
#[derive(Clone, Copy, Debug, PartialEq, Eq, Structural)]
pub struct Animation {
    pub animation_type: AnimationType,
    /// Milliseconds.
    pub last_time: u64,
    /// The frame showing; -1 before the first step.
    pub index: i64,
}

impl Animation {
    /// The animation after one step at `now`.
    pub open spec fn animate_spec(self, now: u64) -> Animation {
        match self.animation_type {
            AnimationType::Cycle(start, end, speed) => {
                let i0 = if self.index == -1 { start - 1 } else { self.index as int };
                let due = self.last_time + speed < now;
                let i1 = if due {
                    if i0 < end { i0 + 1 } else { start as int }
                } else {
                    i0
                };
                let i2 = if i1 == start - 1 { start as int } else { i1 };
                Animation {
                    index: i2 as i64,
                    last_time: if due { now } else { self.last_time },
                    ..self
                }
            },
        }
    }

    pub open spec fn wf(self) -> bool {
        -1 <= self.index <= u32::MAX
    }

    /// A new animation before its first step.
    pub fn new(animation_type: AnimationType, now: u64) -> (r: Animation)
        ensures
            r == (Animation { animation_type, last_time: now, index: -1i64 }),
            r.wf(),
    {
        Animation { animation_type, last_time: now, index: -1 }
    }

    /// One step at `now`: the first step shows the first frame; afterwards the
    /// frame advances (wrapping from the last to the first) once more than `speed`
    /// milliseconds have passed since it last did.
    pub fn animate(&mut self, now: u64)
        requires
            old(self).wf(),
        ensures
            *final(self) == old(self).animate_spec(now),
            final(self).wf(),
    {
        match self.animation_type {
            AnimationType::Cycle(start, end, speed) => {
                if self.index == -1 {
                    self.index = start as i64 - 1;
                }
                if (self.last_time as u128) + (speed as u128) < now as u128 {
                    if self.index < end as i64 {
                        self.index = self.index + 1;
                    } else {
                        self.index = start as i64;
                    }
                    self.last_time = now;
                }
                if self.index == start as i64 - 1 {
                    self.index = start as i64;
                }
            },
        }
    }
}

} // verus!
