use vstd::prelude::*;

use crate::config::{CollisionPolicy, GameConfig};

verus! {

/// Points for destroying a large asteroid; smaller ones are worth more.
pub const ASTEROID_SCORE_BASE: u32 = 100;

#[derive(Clone, Copy, Debug, PartialEq, Eq, Structural)]
pub enum AsteroidSize {
    Large,
    Medium,
    Small,
}

impl AsteroidSize {
    /// The size of the pieces an asteroid splits into; the smallest does not split.
    pub fn next(&self) -> (r: Option<AsteroidSize>)
        ensures
            r == match *self {
                AsteroidSize::Large => Some(AsteroidSize::Medium),
                AsteroidSize::Medium => Some(AsteroidSize::Small),
                AsteroidSize::Small => None,
            },
    {
        match self {
            AsteroidSize::Large => Some(AsteroidSize::Medium),
            AsteroidSize::Medium => Some(AsteroidSize::Small),
            AsteroidSize::Small => None,
        }
    }

    /// Points for destroying an asteroid of this size.
    pub fn score(&self) -> (r: u32)
        ensures
            r == match *self {
                AsteroidSize::Large => ASTEROID_SCORE_BASE,
                AsteroidSize::Medium => (ASTEROID_SCORE_BASE * 2) as u32,
                AsteroidSize::Small => (ASTEROID_SCORE_BASE * 4) as u32,
            },
    {
        match self {
            AsteroidSize::Large => ASTEROID_SCORE_BASE,
            AsteroidSize::Medium => ASTEROID_SCORE_BASE * 2,
            AsteroidSize::Small => ASTEROID_SCORE_BASE * 4,
        }
    }
}

/// The collision rules in force; degraded under load.
#[derive(Clone, Copy, Debug, PartialEq, Eq, Structural)]
pub struct SimulationPolicy {
    pub collision_policy: CollisionPolicy,
}

impl SimulationPolicy {
    pub fn from_config(config: &GameConfig) -> (r: SimulationPolicy)
        ensures
            r.collision_policy == config.collision_policy,
    {
        SimulationPolicy { collision_policy: config.collision_policy }
    }

    /// Falls back to the cheapest collision policy.
    pub fn degrade(&mut self)
        ensures
            final(self).collision_policy == CollisionPolicy::PlayerOnly,
    {
        self.collision_policy = CollisionPolicy::PlayerOnly;
    }
}

} // verus!
