use asteroids_systems::config::{
    default_presets, AiProfile, Budgets, CollisionPolicy, FragmentationMode, GameConfig,
    LeaderboardMode, PhysicsMode, PlayerControllerMode,
};
use asteroids_systems::controllers::HumanController;
use asteroids_systems::menu::{
    draw_game_over, draw_leaderboard_menu, draw_main_menu, draw_options_menu, fragmentation_label,
};
use asteroids_systems::scoreboard::Leaderboard;
use asteroids_systems::simulation::{AsteroidSize, SimulationPolicy};
use asteroids_systems::widgets::format_name_with_cursor;

#[test]
fn default_presets_cover_play_modes() {
    let presets = default_presets();
    assert_eq!(presets.len(), 3);
    assert!(matches!(
        presets[0].player_controller,
        PlayerControllerMode::Human
    ));
    assert!(matches!(
        presets[2].player_controller,
        PlayerControllerMode::Ai {
            profile: AiProfile::Balanced
        }
    ));
}

#[test]
fn budgets_have_expected_values() {
    let classic = Budgets::classic();
    let arcade = Budgets::arcade();
    assert_eq!(classic.max_bodies, 800);
    assert_eq!(arcade.max_bodies, 900);
    assert!(classic.max_bodies < arcade.max_bodies);
}

#[test]
fn physics_cycle_wraps() {
    let mut config = GameConfig::default();
    config.physics_mode = PhysicsMode::Lite;
    config.cycle_physics_mode();
    assert!(matches!(config.physics_mode, PhysicsMode::Off));
}

#[test]
fn collision_cycle_wraps() {
    let mut config = GameConfig::default();
    config.collision_policy = CollisionPolicy::Full;
    config.cycle_collision_policy();
    assert!(matches!(
        config.collision_policy,
        CollisionPolicy::PlayerOnly
    ));
}

#[test]
fn fragmentation_and_leaderboard_cycles_return_home() {
    let mut config = GameConfig::default();
    let start = config;
    for _ in 0..5 {
        config.cycle_fragmentation_mode();
    }
    config.cycle_leaderboard_mode();
    assert_eq!(config.leaderboard_mode, LeaderboardMode::Off);
    config.cycle_leaderboard_mode();
    config.toggle_upgrades();
    config.toggle_upgrades();
    assert_eq!(config, start);
    config.cycle_fragmentation_mode();
    assert_eq!(config.fragmentation_mode, FragmentationMode::SliceOnly);
}

#[test]
fn simulation_policy_degrades_to_player_only() {
    let mut config = GameConfig::default();
    config.collision_policy = CollisionPolicy::BigOnly;
    let mut policy = SimulationPolicy::from_config(&config);
    assert_eq!(policy.collision_policy, CollisionPolicy::BigOnly);
    policy.degrade();
    assert_eq!(policy.collision_policy, CollisionPolicy::PlayerOnly);
}

#[test]
fn asteroid_sizes_split_and_score() {
    assert_eq!(AsteroidSize::Large.next(), Some(AsteroidSize::Medium));
    assert_eq!(AsteroidSize::Medium.next(), Some(AsteroidSize::Small));
    assert_eq!(AsteroidSize::Small.next(), None);
    assert_eq!(AsteroidSize::Large.score(), 100);
    assert_eq!(AsteroidSize::Medium.score(), 200);
    assert_eq!(AsteroidSize::Small.score(), 400);
}

#[test]
fn human_turn_axis() {
    let human = HumanController::default();
    assert_eq!(human.turn_axis(true, false), -1);
    assert_eq!(human.turn_axis(false, true), 1);
    assert_eq!(human.turn_axis(true, true), 0);
    assert_eq!(human.turn_axis(false, false), 0);
}

#[test]
fn name_cursor_positions() {
    assert_eq!(format_name_with_cursor("ACE", 0), "_ACE");
    assert_eq!(format_name_with_cursor("ACE", 1), "A_CE");
    assert_eq!(format_name_with_cursor("ACE", 3), "ACE_");
    assert_eq!(format_name_with_cursor("ACE", 99), "ACE_");
    assert_eq!(format_name_with_cursor("", 0), "_");
    assert_eq!(format_name_with_cursor("héé", 2), "hé_é");
}

#[test]
fn game_over_pads_score() {
    let lines = draw_game_over(42);
    assert_eq!(lines.len(), 5);
    assert_eq!(lines[0], "GAME OVER");
    assert_eq!(lines[2], "GAME OVER  SCORE 000042");
    assert_eq!(draw_game_over(1234567)[2], "GAME OVER  SCORE 1234567");
}

#[test]
fn leaderboard_menu_rows() {
    let empty = draw_leaderboard_menu(&Leaderboard::default());
    assert_eq!(
        empty,
        vec!["LEADERBOARD", "", "No runs recorded yet.", "", "Esc / Enter - Back"]
    );
    let mut board = Leaderboard::default();
    board.submit("alpha", 50);
    board.submit("bravo", 1500);
    let lines = draw_leaderboard_menu(&board);
    assert_eq!(lines.len(), 6);
    assert_eq!(lines[2], format!("{:>2}. {:>6} pts - {}", 1, 1500, "bravo"));
    assert_eq!(lines[3], " 2.     50 pts - alpha");
}

#[test]
fn main_and_options_menus() {
    let main = draw_main_menu();
    assert_eq!(main.len(), 13);
    assert_eq!(main[0], "ASTEROIDS — SYSTEMS");
    let config = GameConfig::default();
    let options = draw_options_menu(&config, "Classic");
    assert_eq!(options[2], "C - Collision Policy: PlayerOnly");
    assert_eq!(options[3], "K - Physics Mode: Arcade");
    assert_eq!(options[4], "F - Fragmentation Mode: ClassicSplit");
    assert_eq!(options[5], "L - Leaderboard Mode: LocalTop10");
    assert_eq!(options[6], "G - Upgrades: Off");
    assert_eq!(options[7], "Y - Preset: Classic");
    assert_eq!(fragmentation_label(&FragmentationMode::Explode), "Explode");
}
