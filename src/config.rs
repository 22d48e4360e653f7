use vstd::prelude::*;

verus! {

/// Who drives the ship.
#[derive(Clone, Copy, Debug, PartialEq, Eq, Structural)]
pub enum PlayerControllerMode {
    Human,
    Ai { profile: AiProfile },
}

/// Behavioural profile of the autopilot; fixes its cadence and aim noise.
#[derive(Clone, Copy, Debug, PartialEq, Eq, Structural)]
pub enum AiProfile {
    Casual,
    Balanced,
    Veteran,
}

#[derive(Clone, Copy, Debug, PartialEq, Eq, Structural)]
pub enum LeaderboardMode {
    Off,
    LocalTop10,
}

#[derive(Clone, Copy, Debug, PartialEq, Eq, Structural)]
pub enum PhysicsMode {
    Off,
    Arcade,
    Lite,
}

#[derive(Clone, Copy, Debug, PartialEq, Eq, Structural)]
pub enum FragmentationMode {
    Off,
    ClassicSplit,
    SliceOnly,
    Explode,
    Full,
}

#[derive(Clone, Copy, Debug, PartialEq, Eq, Structural)]
pub enum CollisionPolicy {
    PlayerOnly,
    BigOnly,
    Full,
}

/// Resource budgets of the simulation. The collision radius is in whole pixels.
#[derive(Clone, Copy, Debug, PartialEq, Eq, Structural)]
pub struct Budgets {
    pub max_bodies: usize,
    pub frag_event_cap: usize,
    pub debris_ttl_ms: u64,
    pub big_collision_radius: u32,
    pub v_max: usize,
}

/// Budgets of the classic preset.
pub open spec fn classic_budgets() -> Budgets {
    Budgets { max_bodies: 800, frag_event_cap: 4, debris_ttl_ms: 900, big_collision_radius: 32, v_max: 24 }
}

/// Budgets of the arcade preset: room for more bodies.
pub open spec fn arcade_budgets() -> Budgets {
    Budgets { max_bodies: 900, ..classic_budgets() }
}

impl Budgets {
    pub fn classic() -> (r: Budgets)
        ensures
            r == classic_budgets(),
    {
        Budgets {
            max_bodies: 800,
            frag_event_cap: 4,
            debris_ttl_ms: 900,
            big_collision_radius: 32,
            v_max: 24,
        }
    }

    pub fn arcade() -> (r: Budgets)
        ensures
            r == arcade_budgets(),
    {
        Budgets {
            max_bodies: 900,
            frag_event_cap: 4,
            debris_ttl_ms: 900,
            big_collision_radius: 32,
            v_max: 24,
        }
    }
}

/// Game-wide settings chosen in the menus.
#[derive(Clone, Copy, Debug, PartialEq, Eq, Structural)]
pub struct GameConfig {
    pub player_controller: PlayerControllerMode,
    pub leaderboard_mode: LeaderboardMode,
    pub budgets: Budgets,
    pub physics_mode: PhysicsMode,
    pub fragmentation_mode: FragmentationMode,
    pub upgrades_enabled: bool,
    pub collision_policy: CollisionPolicy,
}

pub open spec fn next_physics_mode(m: PhysicsMode) -> PhysicsMode {
    match m {
        PhysicsMode::Off => PhysicsMode::Arcade,
        PhysicsMode::Arcade => PhysicsMode::Lite,
        PhysicsMode::Lite => PhysicsMode::Off,
    }
}

pub open spec fn next_collision_policy(p: CollisionPolicy) -> CollisionPolicy {
    match p {
        CollisionPolicy::PlayerOnly => CollisionPolicy::BigOnly,
        CollisionPolicy::BigOnly => CollisionPolicy::Full,
        CollisionPolicy::Full => CollisionPolicy::PlayerOnly,
    }
}

pub open spec fn next_fragmentation_mode(m: FragmentationMode) -> FragmentationMode {
    match m {
        FragmentationMode::Off => FragmentationMode::ClassicSplit,
        FragmentationMode::ClassicSplit => FragmentationMode::SliceOnly,
        FragmentationMode::SliceOnly => FragmentationMode::Explode,
        FragmentationMode::Explode => FragmentationMode::Full,
        FragmentationMode::Full => FragmentationMode::Off,
    }
}

pub open spec fn next_leaderboard_mode(m: LeaderboardMode) -> LeaderboardMode {
    match m {
        LeaderboardMode::Off => LeaderboardMode::LocalTop10,
        LeaderboardMode::LocalTop10 => LeaderboardMode::Off,
    }
}

/// Human control, local top-ten board, classic budgets, arcade physics,
/// classic splitting, no upgrades, player-only collisions.
pub open spec fn classic_config_with(controller: PlayerControllerMode, budgets: Budgets, upgrades: bool) -> GameConfig {
    GameConfig {
        player_controller: controller,
        leaderboard_mode: LeaderboardMode::LocalTop10,
        budgets: budgets,
        physics_mode: PhysicsMode::Arcade,
        fragmentation_mode: FragmentationMode::ClassicSplit,
        upgrades_enabled: upgrades,
        collision_policy: CollisionPolicy::PlayerOnly,
    }
}

impl Default for GameConfig {
    /// The configuration the game starts with: the classic preset.
    fn default() -> (r: GameConfig)
        ensures
            r == classic_config_with(PlayerControllerMode::Human, classic_budgets(), false),
    {
        classic()
    }
}

impl GameConfig {
    pub fn cycle_physics_mode(&mut self)
        ensures
            *final(self) == (GameConfig { physics_mode: next_physics_mode(old(self).physics_mode), ..*old(self) }),
    {
        self.physics_mode = match self.physics_mode {
            PhysicsMode::Off => PhysicsMode::Arcade,
            PhysicsMode::Arcade => PhysicsMode::Lite,
            PhysicsMode::Lite => PhysicsMode::Off,
        };
    }

    pub fn cycle_collision_policy(&mut self)
        ensures
            *final(self) == (GameConfig { collision_policy: next_collision_policy(old(self).collision_policy), ..*old(self) }),
    {
        self.collision_policy = match self.collision_policy {
            CollisionPolicy::PlayerOnly => CollisionPolicy::BigOnly,
            CollisionPolicy::BigOnly => CollisionPolicy::Full,
            CollisionPolicy::Full => CollisionPolicy::PlayerOnly,
        };
    }

    pub fn cycle_fragmentation_mode(&mut self)
        ensures
            *final(self) == (GameConfig {
                fragmentation_mode: next_fragmentation_mode(old(self).fragmentation_mode),
                ..*old(self)
            }),
    {
        self.fragmentation_mode = match self.fragmentation_mode {
            FragmentationMode::Off => FragmentationMode::ClassicSplit,
            FragmentationMode::ClassicSplit => FragmentationMode::SliceOnly,
            FragmentationMode::SliceOnly => FragmentationMode::Explode,
            FragmentationMode::Explode => FragmentationMode::Full,
            FragmentationMode::Full => FragmentationMode::Off,
        };
    }

    pub fn cycle_leaderboard_mode(&mut self)
        ensures
            *final(self) == (GameConfig {
                leaderboard_mode: next_leaderboard_mode(old(self).leaderboard_mode),
                ..*old(self)
            }),
    {
        self.leaderboard_mode = match self.leaderboard_mode {
            LeaderboardMode::Off => LeaderboardMode::LocalTop10,
            LeaderboardMode::LocalTop10 => LeaderboardMode::Off,
        };
    }

    pub fn toggle_upgrades(&mut self)
        ensures
            *final(self) == (GameConfig { upgrades_enabled: !old(self).upgrades_enabled, ..*old(self) }),
    {
        self.upgrades_enabled = !self.upgrades_enabled;
    }
}

fn classic() -> (r: GameConfig)
    ensures
        r == classic_config_with(PlayerControllerMode::Human, classic_budgets(), false),
{
    GameConfig {
        player_controller: PlayerControllerMode::Human,
        leaderboard_mode: LeaderboardMode::LocalTop10,
        budgets: Budgets::classic(),
        physics_mode: PhysicsMode::Arcade,
        fragmentation_mode: FragmentationMode::ClassicSplit,
        upgrades_enabled: false,
        collision_policy: CollisionPolicy::PlayerOnly,
    }
}

fn arcade_upgrades() -> (r: GameConfig)
    ensures
        r == classic_config_with(PlayerControllerMode::Human, arcade_budgets(), true),
{
    GameConfig {
        player_controller: PlayerControllerMode::Human,
        leaderboard_mode: LeaderboardMode::LocalTop10,
        budgets: Budgets::arcade(),
        physics_mode: PhysicsMode::Arcade,
        fragmentation_mode: FragmentationMode::ClassicSplit,
        upgrades_enabled: true,
        collision_policy: CollisionPolicy::PlayerOnly,
    }
}

fn ai_autopilot() -> (r: GameConfig)
    ensures
        r == classic_config_with(PlayerControllerMode::Ai { profile: AiProfile::Balanced }, classic_budgets(), false),
{
    GameConfig {
        player_controller: PlayerControllerMode::Ai { profile: AiProfile::Balanced },
        leaderboard_mode: LeaderboardMode::LocalTop10,
        budgets: Budgets::classic(),
        physics_mode: PhysicsMode::Arcade,
        fragmentation_mode: FragmentationMode::ClassicSplit,
        upgrades_enabled: false,
        collision_policy: CollisionPolicy::PlayerOnly,
    }
}

/// The selectable presets, in menu order: classic, arcade with upgrades, autopilot.
pub fn default_presets() -> (r: Vec<GameConfig>)
    ensures
        r@.len() == 3,
        r@[0] == classic_config_with(PlayerControllerMode::Human, classic_budgets(), false),
        r@[1] == classic_config_with(PlayerControllerMode::Human, arcade_budgets(), true),
        r@[2] == classic_config_with(PlayerControllerMode::Ai { profile: AiProfile::Balanced }, classic_budgets(), false),
{
    vec![classic(), arcade_upgrades(), ai_autopilot()]
}

} // verus!
