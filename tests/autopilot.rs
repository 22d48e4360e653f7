use asteroids_systems::autopilot::{
    base_aim_sigma_centideg, clutter_count, decision_interval_us, fire_decision, fire_policy,
    phase_thrust_percent, profile_seed, size_weight_hundredths, AutopilotState, FireCommand, Phase,
    SizeClass, TargetRefresh, COMMIT_MAX_US, COMMIT_MIN_US, EVADE_HOLD_US, RECOVER_HOLD_US,
};
use asteroids_systems::config::AiProfile;
use asteroids_systems::rng::XorShift32;
use asteroids_systems::select::{first_max_eligible, first_min};

#[test]
fn asteroid_size_weight_prefers_large() {
    let small = size_weight_hundredths(SizeClass::Small);
    let medium = size_weight_hundredths(SizeClass::Medium);
    let large = size_weight_hundredths(SizeClass::Large);
    assert!(medium > small);
    assert!(large > medium);
    assert_eq!((small, medium, large), (100, 128, 165));
}

#[test]
fn profile_constants() {
    assert_eq!(decision_interval_us(AiProfile::Casual), 200_000);
    assert_eq!(decision_interval_us(AiProfile::Balanced), 140_000);
    assert_eq!(decision_interval_us(AiProfile::Veteran), 100_000);
    assert_eq!(base_aim_sigma_centideg(AiProfile::Casual), 700);
    assert_eq!(base_aim_sigma_centideg(AiProfile::Balanced), 400);
    assert_eq!(base_aim_sigma_centideg(AiProfile::Veteran), 220);
    assert_eq!(profile_seed(AiProfile::Casual), 0xC0FFEE ^ 1);
    assert_eq!(profile_seed(AiProfile::Balanced), 0xC0FFEE ^ 2);
    assert_eq!(profile_seed(AiProfile::Veteran), 0xC0FFEE ^ 3);
    assert_eq!(clutter_count(3), 3);
    assert_eq!(clutter_count(10), 10);
    assert_eq!(clutter_count(250), 10);
    assert_eq!(phase_thrust_percent(Phase::Engage), 78);
    assert_eq!(phase_thrust_percent(Phase::Evade), 45);
    assert_eq!(phase_thrust_percent(Phase::Recover), 58);
    assert_eq!(phase_thrust_percent(Phase::Recenter), 72);
}

#[test]
fn fire_gating_rules() {
    let none = FireCommand { primary: false, secondary: false };
    assert_eq!(fire_decision(0, 0, Phase::Engage, true), none);
    assert_eq!(fire_decision(1, 0, Phase::Engage, true), FireCommand { primary: true, secondary: false });
    assert_eq!(fire_decision(3, 1, Phase::Engage, true), FireCommand { primary: true, secondary: false });
    assert_eq!(fire_decision(3, 2, Phase::Recover, true), FireCommand { primary: true, secondary: true });
    assert_eq!(fire_decision(3, 2, Phase::Engage, false), FireCommand { primary: false, secondary: true });
    assert_eq!(fire_decision(0, 0, Phase::Evade, true), FireCommand { primary: true, secondary: false });
    assert_eq!(fire_decision(1, 1, Phase::Evade, true), FireCommand { primary: true, secondary: true });
    assert_eq!(fire_decision(1, 1, Phase::Evade, false), FireCommand { primary: false, secondary: true });
}

#[test]
fn new_state_is_idle_engage() {
    let s = AutopilotState::new(AiProfile::Veteran);
    assert_eq!(s.phase, Phase::Engage);
    assert!(!s.has_target);
    assert_eq!(s.decision_timer_us, 0);
    assert_eq!(s.rng, XorShift32::new(0xC0FFEE ^ 3));
}

#[test]
fn critical_threat_forces_evade_from_any_phase() {
    for phase in [Phase::Engage, Phase::Evade, Phase::Recover, Phase::Recenter] {
        for outside in [false, true] {
            let mut s = AutopilotState::new(AiProfile::Balanced);
            s.phase = phase;
            s.phase_timer_us = 5;
            s.begin_tick(16_667, true, outside);
            assert_eq!(s.phase, Phase::Evade);
            assert_eq!(s.phase_timer_us, EVADE_HOLD_US);
        }
    }
}

#[test]
fn evade_then_recover_then_engage() {
    let mut s = AutopilotState::new(AiProfile::Balanced);
    s.begin_tick(10_000, true, false);
    assert_eq!(s.phase, Phase::Evade);
    let tick = 20_000u64;
    let mut elapsed = 0u64;
    let mut seen_recover = false;
    while s.phase != Phase::Engage {
        s.begin_tick(tick, false, false);
        elapsed += tick;
        if s.phase == Phase::Recover {
            seen_recover = true;
        }
        assert!(elapsed <= EVADE_HOLD_US + RECOVER_HOLD_US + tick);
    }
    assert!(seen_recover);
    assert!(elapsed >= EVADE_HOLD_US + RECOVER_HOLD_US);
    assert_eq!(elapsed, 480_000 + 860_000);
}

#[test]
fn outside_ring_recenters_then_engages() {
    let mut s = AutopilotState::new(AiProfile::Casual);
    s.begin_tick(1_000, false, true);
    assert_eq!(s.phase, Phase::Recenter);
    s.begin_tick(1_000, false, false);
    assert_eq!(s.phase, Phase::Engage);
}

#[test]
fn decision_cadence_and_commitment() {
    let mut s = AutopilotState::new(AiProfile::Balanced);
    assert_eq!(s.begin_tick(16_000, false, false), TargetRefresh::Select);
    assert_eq!(s.decision_timer_us, 140_000);
    let mut expected_rng = s.rng;
    let w = expected_rng.next_u32();
    s.commit_target(true);
    assert!(s.has_target);
    assert_eq!(s.rng, expected_rng);
    assert_eq!(s.target_timer_us, COMMIT_MIN_US + (w as u64 * 800_000) / (1u64 << 32));
    assert!(s.target_timer_us >= COMMIT_MIN_US && s.target_timer_us < COMMIT_MAX_US);
    assert_eq!(s.begin_tick(100_000, false, false), TargetRefresh::Hold);
    assert_eq!(s.begin_tick(40_000, false, false), TargetRefresh::Reanchor);
    s.reanchor(false);
    assert!(!s.has_target);
    assert_eq!(s.target_timer_us, 0);
}

#[test]
fn empty_field_never_selects_and_never_fires() {
    let mut s = AutopilotState::new(AiProfile::Balanced);
    for _ in 0..200 {
        match s.begin_tick(16_667, false, false) {
            TargetRefresh::Select => s.commit_target(false),
            TargetRefresh::Reanchor => s.reanchor(false),
            TargetRefresh::Hold => {}
        }
        assert!(!s.has_target);
        assert_eq!(s.phase, Phase::Engage);
        assert_eq!(phase_thrust_percent(s.phase), 78);
        assert_eq!(fire_decision(0, 0, s.phase, true), FireCommand { primary: false, secondary: false });
    }
}

#[test]
fn single_closing_asteroid_enters_evade_next_tick() {
    let mut s = AutopilotState::new(AiProfile::Veteran);
    s.begin_tick(16_667, false, false);
    assert_eq!(s.phase, Phase::Engage);
    s.begin_tick(16_667, true, false);
    assert_eq!(s.phase, Phase::Evade);
    assert_eq!(fire_decision(1, 1, s.phase, true), FireCommand { primary: true, secondary: true });
}

#[test]
fn first_max_prefers_earliest_of_equal_best() {
    assert_eq!(first_max_eligible(&vec![], &vec![]), None);
    assert_eq!(first_max_eligible(&vec![5, 9, 9, 1], &vec![true, true, true, true]), Some(1));
    assert_eq!(first_max_eligible(&vec![5, 9, 9, 1], &vec![true, false, true, true]), Some(2));
    assert_eq!(first_max_eligible(&vec![5, 9], &vec![false, false]), None);
    assert_eq!(first_max_eligible(&vec![0, 0, 3], &vec![true, true, false]), Some(0));
}

#[test]
fn first_min_never_worse_than_base() {
    assert_eq!(first_min(&vec![7]), 0);
    assert_eq!(first_min(&vec![4, 4, 4]), 0);
    assert_eq!(first_min(&vec![4, 6, 2, 3, 2]), 2);
    assert_eq!(first_min(&vec![4, 6, 5]), 0);
}

#[test]
fn fire_policy_counts_flags() {
    let none = FireCommand { primary: false, secondary: false };
    assert_eq!(fire_policy(&vec![], &vec![], Phase::Engage, true), none);
    assert_eq!(fire_policy(&vec![false, false], &vec![true, true], Phase::Recover, true), none);
    assert_eq!(
        fire_policy(&vec![true, false, true], &vec![true, true, false], Phase::Engage, true),
        FireCommand { primary: true, secondary: false }
    );
    assert_eq!(
        fire_policy(&vec![true, true, true], &vec![true, false, true], Phase::Engage, true),
        FireCommand { primary: true, secondary: true }
    );
    assert_eq!(
        fire_policy(&vec![true, true], &vec![true, true], Phase::Engage, false),
        FireCommand { primary: false, secondary: true }
    );
    assert_eq!(
        fire_policy(&vec![false, true], &vec![true, true], Phase::Evade, true),
        FireCommand { primary: true, secondary: true }
    );
}

#[test]
fn target_selection_and_reanchor_by_keys() {
    let mut s = AutopilotState::new(AiProfile::Casual);
    assert_eq!(s.select_target(&vec![3, 8, 8], &vec![true, false, true]), Some(2));
    assert!(s.has_target);
    assert!(s.target_timer_us >= COMMIT_MIN_US && s.target_timer_us < COMMIT_MAX_US);
    let before = s.clone();
    assert_eq!(s.reanchor_nearest(&vec![30, 10, 10]), Some(1));
    assert!(s.has_target);
    assert_eq!(s.target_timer_us, before.target_timer_us);
    assert_eq!(s.reanchor_nearest(&vec![]), None);
    assert!(!s.has_target);
    assert_eq!(s.select_target(&vec![1], &vec![false]), None);
    assert!(!s.has_target);
}
