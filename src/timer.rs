use vstd::prelude::*;

verus! {

/// How long the red damage flash lasts, in milliseconds.
pub const DAMAGE_OVERLAY_MS: u64 = 250;

/// How long an entity cannot be damaged again after a hit, in milliseconds.
pub const DAMAGE_COOLDOWN_MS: u64 = 500;

/// Minimum time between two shots of the player, in milliseconds.
pub const SHOOT_TIMEOUT_MS: u64 = 50;

/// How long the player must be airborne before the ground latch clears, in milliseconds.
pub const ON_GROUND_LATCH_MS: u64 = 300;

/// A timed flag: either off, or on since a timestamp (milliseconds).
#[derive(Clone, Copy, Debug, PartialEq, Eq, Structural)]
pub enum Timer {
    Inactive,
    Active { since: u64 },
}

impl Timer {
    /// The flag is set and `duration` has not yet passed: `now <= since + duration`.
    pub open spec fn running_spec(self, duration: u64, now: u64) -> bool {
        match self {
            Timer::Inactive => false,
            Timer::Active { since } => now <= since + duration,
        }
    }

    /// The flag is set and `duration` has passed: `since + duration < now`.
    pub open spec fn elapsed_spec(self, duration: u64, now: u64) -> bool {
        match self {
            Timer::Inactive => false,
            Timer::Active { since } => since + duration < now,
        }
    }

    pub open spec fn is_active_spec(self) -> bool {
        self is Active
    }

    pub fn is_active(&self) -> (r: bool)
        ensures
            r == self.is_active_spec(),
    {
        match self {
            Timer::Inactive => false,
            Timer::Active { .. } => true,
        }
    }

    /// Whether the flag is set and `duration` milliseconds have passed since.
    pub fn elapsed(&self, duration: u64, now: u64) -> (r: bool)
        ensures
            r == self.elapsed_spec(duration, now),
    {
        match self {
            Timer::Inactive => false,
            Timer::Active { since } => (*since as u128) + (duration as u128) < now as u128,
        }
    }

    /// Whether the flag is set and `duration` milliseconds have not passed yet.
    pub fn running(&self, duration: u64, now: u64) -> (r: bool)
        ensures
            r == self.running_spec(duration, now),
    {
        match self {
            Timer::Inactive => false,
            Timer::Active { since } => now as u128 <= (*since as u128) + (duration as u128),
        }
    }
}

} // verus!
