use vstd::prelude::*;

use crate::config::AiProfile;
use crate::rng::{XorShift32, xorshift_step};
use crate::select::{first_max_eligible, first_min, is_first_max, is_first_min};

verus! {

// Every timer of the autopilot counts microseconds.

/// How long an evasion holds once entered.
pub const EVADE_HOLD_US: u64 = 480_000;

/// How long the recovery after an evasion holds.
pub const RECOVER_HOLD_US: u64 = 850_000;

/// Shortest commitment to a chosen target.
pub const COMMIT_MIN_US: u64 = 550_000;

/// Commitments to a chosen target are shorter than this.
pub const COMMIT_MAX_US: u64 = 1_350_000;

/// Cluster hits needed for spread fire outside of evasion.
pub const SECONDARY_CLUSTER_COUNT: usize = 2;

/// Asteroids beyond this count no longer widen the aim noise.
pub const CLUTTER_CAP: usize = 10;

/// Behavioural phase of the autopilot.
#[derive(Clone, Copy, Debug, PartialEq, Eq, Structural)]
pub enum Phase {
    Engage,
    Evade,
    Recover,
    Recenter,
}

/// Size class of an asteroid, from its radius.
#[derive(Clone, Copy, Debug, PartialEq, Eq, Structural)]
pub enum SizeClass {
    Small,
    Medium,
    Large,
}

pub open spec fn spec_size_weight(c: SizeClass) -> u32 {
    match c {
        SizeClass::Small => 100,
        SizeClass::Medium => 128,
        SizeClass::Large => 165,
    }
}

/// Risk and utility multiplier of a size class, in hundredths.
pub fn size_weight_hundredths(c: SizeClass) -> (r: u32)
    ensures
        r == spec_size_weight(c),
{
    match c {
        SizeClass::Small => 100,
        SizeClass::Medium => 128,
        SizeClass::Large => 165,
    }
}

/// Size weighting never decreases from small to medium to large.
pub proof fn size_weight_monotone()
    ensures
        spec_size_weight(SizeClass::Small) <= spec_size_weight(SizeClass::Medium),
        spec_size_weight(SizeClass::Medium) <= spec_size_weight(SizeClass::Large),
{
}

pub open spec fn spec_decision_interval_us(p: AiProfile) -> u64 {
    match p {
        AiProfile::Casual => 200_000,
        AiProfile::Balanced => 140_000,
        AiProfile::Veteran => 100_000,
    }
}

pub open spec fn spec_aim_sigma_centideg(p: AiProfile) -> u32 {
    match p {
        AiProfile::Casual => 700,
        AiProfile::Balanced => 400,
        AiProfile::Veteran => 220,
    }
}

/// `0xC0FFEE` xor (the profile's position in `Casual, Balanced, Veteran`, plus one).
pub open spec fn spec_profile_seed(p: AiProfile) -> u32 {
    match p {
        AiProfile::Casual => 0xC0FFEF,
        AiProfile::Balanced => 0xC0FFEC,
        AiProfile::Veteran => 0xC0FFED,
    }
}

/// Time between two target decisions of a profile.
pub fn decision_interval_us(p: AiProfile) -> (r: u64)
    ensures
        r == spec_decision_interval_us(p),
{
    match p {
        AiProfile::Casual => 200_000,
        AiProfile::Balanced => 140_000,
        AiProfile::Veteran => 100_000,
    }
}

/// Base standard deviation of the aim noise of a profile, in hundredths of a degree.
pub fn base_aim_sigma_centideg(p: AiProfile) -> (r: u32)
    ensures
        r == spec_aim_sigma_centideg(p),
{
    match p {
        AiProfile::Casual => 700,
        AiProfile::Balanced => 400,
        AiProfile::Veteran => 220,
    }
}

/// Seed of a profile's generator.
pub fn profile_seed(p: AiProfile) -> (r: u32)
    ensures
        r == spec_profile_seed(p),
{
    match p {
        AiProfile::Casual => 0xC0FFEF,
        AiProfile::Balanced => 0xC0FFEC,
        AiProfile::Veteran => 0xC0FFED,
    }
}

/// Number of asteroids that counts toward clutter: at most `CLUTTER_CAP`.
pub fn clutter_count(n: usize) -> (r: u32)
    ensures
        r as int == if n < CLUTTER_CAP { n as int } else { CLUTTER_CAP as int },
{
    if n < CLUTTER_CAP {
        n as u32
    } else {
        CLUTTER_CAP as u32
    }
}

pub open spec fn spec_phase_thrust(p: Phase) -> u32 {
    match p {
        Phase::Evade => 45,
        Phase::Recover => 58,
        Phase::Recenter => 72,
        Phase::Engage => 78,
    }
}

/// Thrust of a phase before edge attenuation, in hundredths.
pub fn phase_thrust_percent(p: Phase) -> (r: u32)
    ensures
        r == spec_phase_thrust(p),
{
    match p {
        Phase::Evade => 45,
        Phase::Recover => 58,
        Phase::Recenter => 72,
        Phase::Engage => 78,
    }
}

/// Length of a target commitment drawn from the word `w`:
/// uniform between `COMMIT_MIN_US` and `COMMIT_MAX_US`, `w / 2^32` being the fraction.
pub open spec fn commit_duration_us(w: u32) -> u64 {
    (COMMIT_MIN_US + (w as int * (COMMIT_MAX_US - COMMIT_MIN_US) as int) / 0x1_0000_0000) as u64
}

/// Every commitment drawn lies in the window from `COMMIT_MIN_US` up to `COMMIT_MAX_US`.
pub proof fn commit_duration_in_window(w: u32)
    ensures
        COMMIT_MIN_US <= commit_duration_us(w) < COMMIT_MAX_US,
{
    assert((w as int * 800_000) / 0x1_0000_0000 < 800_000) by (nonlinear_arith)
        requires w < 0x1_0000_0000int;
    assert((w as int * 800_000) / 0x1_0000_0000 >= 0) by (nonlinear_arith)
        requires w >= 0;
}

/// What the primary and secondary weapons do this tick.
#[derive(Clone, Copy, Debug, PartialEq, Eq, Structural)]
pub struct FireCommand {
    pub primary: bool,
    pub secondary: bool,
}

/// Fire gating. `forward_hits` counts the asteroids within primary range and arc,
/// `cluster_hits` those of them that are also within cluster range, and `aligned`
/// says that the nose points close enough to the committed target (true without one).
/// Evasion forces primary fire, and spread fire once any cluster hit exists.
pub fn fire_decision(forward_hits: usize, cluster_hits: usize, phase: Phase, aligned: bool) -> (r: FireCommand)
    requires
        cluster_hits <= forward_hits,
    ensures
        r.primary == ((forward_hits > 0 || phase == Phase::Evade) && aligned),
        r.secondary == (cluster_hits >= SECONDARY_CLUSTER_COUNT || (phase == Phase::Evade && cluster_hits > 0)),
        phase != Phase::Evade && forward_hits == 0 ==> !r.primary && !r.secondary,
        !aligned ==> !r.primary,
{
    let mut primary = forward_hits > 0;
    let mut secondary = cluster_hits >= SECONDARY_CLUSTER_COUNT;
    if phase == Phase::Evade {
        primary = true;
        if cluster_hits > 0 {
            secondary = true;
        }
    }
    FireCommand { primary: primary && aligned, secondary }
}

/// Number of `true` flags.
pub open spec fn count_true(s: Seq<bool>) -> nat
    decreases s.len(),
{
    if s.len() == 0 {
        0
    } else {
        count_true(s.drop_last()) + if s.last() {
            1nat
        } else {
            0nat
        }
    }
}

/// Number of indices at which both flags are set.
pub open spec fn count_both(a: Seq<bool>, b: Seq<bool>) -> nat
    decreases a.len(),
{
    if a.len() == 0 || b.len() == 0 {
        0
    } else {
        count_both(a.drop_last(), b.drop_last()) + if a.last() && b.last() {
            1nat
        } else {
            0nat
        }
    }
}

proof fn lemma_count_true_zero(s: Seq<bool>)
    ensures
        count_true(s) == 0 <==> forall|i: int| 0 <= i < s.len() ==> !s[i],
        count_true(s) <= s.len(),
    decreases s.len(),
{
    if s.len() > 0 {
        lemma_count_true_zero(s.drop_last());
        if count_true(s) == 0 {
            assert forall|i: int| 0 <= i < s.len() implies !s[i] by {
                if i < s.len() - 1 {
                    assert(s[i] == s.drop_last()[i]);
                }
            }
        }
        if forall|i: int| 0 <= i < s.len() ==> !s[i] {
            assert forall|i: int| 0 <= i < s.drop_last().len() implies !s.drop_last()[i] by {
                assert(s[i] == s.drop_last()[i]);
            }
        }
    }
}

/// Fire policy over the asteroids of a snapshot: `in_arc[i]` says asteroid `i` lies within
/// primary range and arc of the nose, `near[i]` that it lies within cluster range.
/// Forward hits are the asteroids in arc, cluster hits those also near; the decision is
/// then that of `fire_decision`.
pub fn fire_policy(in_arc: &Vec<bool>, near: &Vec<bool>, phase: Phase, aligned: bool) -> (r: FireCommand)
    requires
        in_arc@.len() == near@.len(),
    ensures
        r.primary == ((count_true(in_arc@) > 0 || phase == Phase::Evade) && aligned),
        r.secondary == (count_both(in_arc@, near@) >= SECONDARY_CLUSTER_COUNT || (phase == Phase::Evade
            && count_both(in_arc@, near@) > 0)),
        phase != Phase::Evade && (forall|i: int| 0 <= i < in_arc@.len() ==> !in_arc@[i]) ==> !r.primary
            && !r.secondary,
        !aligned ==> !r.primary,
{
    let mut forward_hits: usize = 0;
    let mut cluster_hits: usize = 0;
    let mut i: usize = 0;
    while i < in_arc.len()
        invariant
            in_arc@.len() == near@.len(),
            i <= in_arc@.len(),
            forward_hits == count_true(in_arc@.take(i as int)),
            cluster_hits == count_both(in_arc@.take(i as int), near@.take(i as int)),
            forward_hits <= i,
            cluster_hits <= forward_hits,
        decreases in_arc@.len() - i,
    {
        let ghost a = in_arc@.take(i + 1 as int);
        let ghost b = near@.take(i + 1 as int);
        assert(a.drop_last() =~= in_arc@.take(i as int));
        assert(b.drop_last() =~= near@.take(i as int));
        if in_arc[i] {
            forward_hits = forward_hits + 1;
            if near[i] {
                cluster_hits = cluster_hits + 1;
            }
        }
        i = i + 1;
    }
    assert(in_arc@.take(in_arc@.len() as int) =~= in_arc@);
    assert(near@.take(near@.len() as int) =~= near@);
    proof {
        lemma_count_true_zero(in_arc@);
    }
    fire_decision(forward_hits, cluster_hits, phase, aligned)
}

pub open spec fn sat_sub(a: u64, b: u64) -> u64 {
    if a > b {
        (a - b) as u64
    } else {
        0
    }
}

/// Phase transitions of one tick, on timers that were already advanced, in priority order:
/// a critical threat forces Evade; an expired Evade hold becomes Recover; outside Evade,
/// leaving the outer ring forces Recenter, Recenter back inside becomes Engage, and an
/// expired Recover hold becomes Engage.
pub open spec fn phase_rules(phase: Phase, timer: u64, critical: bool, outside_ring: bool) -> (Phase, u64) {
    let (p1, t1) = if critical {
        (Phase::Evade, EVADE_HOLD_US)
    } else {
        (phase, timer)
    };
    let (p2, t2) = if p1 == Phase::Evade && t1 == 0 {
        (Phase::Recover, RECOVER_HOLD_US)
    } else {
        (p1, t1)
    };
    if p2 == Phase::Evade {
        (p2, t2)
    } else if outside_ring {
        (Phase::Recenter, t2)
    } else if p2 == Phase::Recenter {
        (Phase::Engage, t2)
    } else if p2 == Phase::Recover && t2 == 0 {
        (Phase::Engage, t2)
    } else {
        (p2, t2)
    }
}

/// Phase and phase timer after a tick of `dt` microseconds.
pub open spec fn phase_tick(phase: Phase, timer: u64, dt: u64, critical: bool, outside_ring: bool) -> (Phase, u64) {
    phase_rules(phase, sat_sub(timer, dt), critical, outside_ring)
}

/// What the target logic does this tick.
#[derive(Clone, Copy, Debug, PartialEq, Eq, Structural)]
pub enum TargetRefresh {
    /// Not a decision tick: keep the target as it is.
    Hold,
    /// Choose a new target and draw a new commitment.
    Select,
    /// Move the committed target onto the asteroid nearest to it.
    Reanchor,
}

/// The discrete state of one autopilot: its profile, timers in microseconds,
/// whether a target is committed, its phase and its generator.
#[derive(Clone, Copy, Debug)]
pub struct AutopilotState {
    pub profile: AiProfile,
    pub decision_timer_us: u64,
    pub has_target: bool,
    pub target_timer_us: u64,
    pub phase: Phase,
    pub phase_timer_us: u64,
    pub rng: XorShift32,
}

impl AutopilotState {
    /// A fresh autopilot: engaging, no target, all timers expired, generator seeded from the profile.
    pub fn new(profile: AiProfile) -> (r: AutopilotState)
        ensures
            r.profile == profile,
            r.decision_timer_us == 0,
            !r.has_target,
            r.target_timer_us == 0,
            r.phase == Phase::Engage,
            r.phase_timer_us == 0,
            r.rng.state == spec_profile_seed(profile),
    {
        let seed = profile_seed(profile);
        AutopilotState {
            profile,
            decision_timer_us: 0,
            has_target: false,
            target_timer_us: 0,
            phase: Phase::Engage,
            phase_timer_us: 0,
            rng: XorShift32::new(seed),
        }
    }

    /// Start of a tick of `dt_us` microseconds: advances the timers (floored at zero),
    /// applies the phase rules given whether the worst threat is critical and whether the
    /// ship is outside the outer ring, and says what the target logic does.
    /// On a decision tick the cadence timer restarts at the profile's interval.
    pub fn begin_tick(&mut self, dt_us: u64, critical: bool, outside_ring: bool) -> (r: TargetRefresh)
        ensures
            (final(self).phase, final(self).phase_timer_us) == phase_tick(
                old(self).phase,
                old(self).phase_timer_us,
                dt_us,
                critical,
                outside_ring,
            ),
            critical ==> final(self).phase == Phase::Evade && final(self).phase_timer_us == EVADE_HOLD_US,
            final(self).target_timer_us == sat_sub(old(self).target_timer_us, dt_us),
            sat_sub(old(self).decision_timer_us, dt_us) == 0 ==> {
                &&& final(self).decision_timer_us == spec_decision_interval_us(old(self).profile)
                &&& r == if !old(self).has_target || final(self).target_timer_us == 0 {
                    TargetRefresh::Select
                } else {
                    TargetRefresh::Reanchor
                }
            },
            sat_sub(old(self).decision_timer_us, dt_us) != 0 ==> {
                &&& final(self).decision_timer_us == sat_sub(old(self).decision_timer_us, dt_us)
                &&& r == TargetRefresh::Hold
            },
            final(self).profile == old(self).profile,
            final(self).has_target == old(self).has_target,
            final(self).rng == old(self).rng,
    {
        self.decision_timer_us = self.decision_timer_us.saturating_sub(dt_us);
        self.target_timer_us = self.target_timer_us.saturating_sub(dt_us);
        self.phase_timer_us = self.phase_timer_us.saturating_sub(dt_us);

        if critical {
            self.phase = Phase::Evade;
            self.phase_timer_us = EVADE_HOLD_US;
        }
        if self.phase == Phase::Evade && self.phase_timer_us == 0 {
            self.phase = Phase::Recover;
            self.phase_timer_us = RECOVER_HOLD_US;
        }
        if self.phase != Phase::Evade {
            if outside_ring {
                self.phase = Phase::Recenter;
            } else if self.phase == Phase::Recenter {
                self.phase = Phase::Engage;
            } else if self.phase == Phase::Recover && self.phase_timer_us == 0 {
                self.phase = Phase::Engage;
            }
        }

        if self.decision_timer_us == 0 {
            self.decision_timer_us = decision_interval_us(self.profile);
            if !self.has_target || self.target_timer_us == 0 {
                TargetRefresh::Select
            } else {
                TargetRefresh::Reanchor
            }
        } else {
            TargetRefresh::Hold
        }
    }

    /// Records the outcome of a target choice and draws the commitment window
    /// from the generator, whether or not a target was found.
    pub fn commit_target(&mut self, found: bool)
        ensures
            final(self).has_target == found,
            final(self).rng.state == xorshift_step(old(self).rng.state),
            final(self).target_timer_us == commit_duration_us(final(self).rng.state),
            final(self).profile == old(self).profile,
            final(self).decision_timer_us == old(self).decision_timer_us,
            final(self).phase == old(self).phase,
            final(self).phase_timer_us == old(self).phase_timer_us,
    {
        let w = self.rng.next_u32();
        assert((w as int * 800_000) / 0x1_0000_0000 < 800_000) by (nonlinear_arith)
            requires w < 0x1_0000_0000int;
        let span: u64 = (w as u64 * (COMMIT_MAX_US - COMMIT_MIN_US)) / 0x1_0000_0000u64;
        self.target_timer_us = COMMIT_MIN_US + span;
        self.has_target = found;
    }

    /// Records the outcome of a re-anchoring: with no asteroid left the target is
    /// dropped and its commitment ends.
    pub fn reanchor(&mut self, found: bool)
        ensures
            found ==> *final(self) == *old(self),
            !found ==> *final(self) == (AutopilotState { has_target: false, target_timer_us: 0, ..*old(self) }),
    {
        if !found {
            self.has_target = false;
            self.target_timer_us = 0;
        }
    }
}

impl AutopilotState {
    /// A target choice on a `Select` tick: among the eligible candidates (within engagement
    /// range and the forward cone) the one with the greatest utility key, the earliest on
    /// ties; then a new commitment window is drawn, whether or not one was found.
    pub fn select_target(&mut self, utility_keys: &Vec<u32>, eligible: &Vec<bool>) -> (r: Option<usize>)
        requires
            utility_keys@.len() == eligible@.len(),
        ensures
            r is None <==> forall|j: int| 0 <= j < eligible@.len() ==> !eligible@[j],
            r matches Some(i) ==> is_first_max(utility_keys@, eligible@, i as int),
            r matches Some(i) ==> eligible@[i as int],
            final(self).has_target == r is Some,
            final(self).rng.state == xorshift_step(old(self).rng.state),
            final(self).target_timer_us == commit_duration_us(final(self).rng.state),
            final(self).profile == old(self).profile,
            final(self).decision_timer_us == old(self).decision_timer_us,
            final(self).phase == old(self).phase,
            final(self).phase_timer_us == old(self).phase_timer_us,
    {
        let r = first_max_eligible(utility_keys, eligible);
        self.commit_target(r.is_some());
        r
    }

    /// A re-anchoring on a `Reanchor` tick: the live asteroid nearest to the stale target
    /// (smallest distance key, earliest on ties); with none left the target is dropped.
    pub fn reanchor_nearest(&mut self, distance_keys: &Vec<u32>) -> (r: Option<usize>)
        ensures
            distance_keys@.len() == 0 <==> r is None,
            r matches Some(i) ==> is_first_min(distance_keys@, i as int),
            r is Some ==> *final(self) == *old(self),
            r is None ==> *final(self) == (AutopilotState { has_target: false, target_timer_us: 0, ..*old(self) }),
    {
        if distance_keys.len() == 0 {
            self.reanchor(false);
            None
        } else {
            let i = first_min(distance_keys);
            self.reanchor(true);
            Some(i)
        }
    }
}

/// Phase and timer after a run of ticks with no critical threat and the ship inside the
/// outer ring; `dts` are the tick lengths.
pub open spec fn calm_run(phase: Phase, timer: u64, dts: Seq<u64>) -> (Phase, u64)
    decreases dts.len(),
{
    if dts.len() == 0 {
        (phase, timer)
    } else {
        let (p, t) = phase_tick(phase, timer, dts[0], false, false);
        calm_run(p, t, dts.drop_first())
    }
}

/// Total length of a run of ticks.
pub open spec fn elapsed(dts: Seq<u64>) -> int
    decreases dts.len(),
{
    if dts.len() == 0 {
        0
    } else {
        dts[0] + elapsed(dts.drop_first())
    }
}

proof fn calm_engage_stays(timer: u64, dts: Seq<u64>)
    ensures
        calm_run(Phase::Engage, timer, dts).0 == Phase::Engage,
    decreases dts.len(),
{
    if dts.len() > 0 {
        calm_engage_stays(sat_sub(timer, dts[0]), dts.drop_first());
    }
}

proof fn calm_recover_settles(timer: u64, dts: Seq<u64>)
    requires
        timer > 0,
        elapsed(dts) >= timer,
    ensures
        calm_run(Phase::Recover, timer, dts).0 == Phase::Engage,
    decreases dts.len(),
{
    if dts.len() > 0 {
        let t = sat_sub(timer, dts[0]);
        if t == 0 {
            calm_engage_stays(t, dts.drop_first());
        } else {
            calm_recover_settles(t, dts.drop_first());
        }
    }
}

proof fn calm_recover_holds(timer: u64, dts: Seq<u64>)
    requires
        elapsed(dts) < timer,
    ensures
        calm_run(Phase::Recover, timer, dts).0 == Phase::Recover,
    decreases dts.len(),
{
    if dts.len() > 0 {
        elapsed_nonneg(dts.drop_first());
        calm_recover_holds(sat_sub(timer, dts[0]), dts.drop_first());
    }
}

proof fn elapsed_nonneg(dts: Seq<u64>)
    ensures
        elapsed(dts) >= 0,
    decreases dts.len(),
{
    if dts.len() > 0 {
        elapsed_nonneg(dts.drop_first());
    }
}

proof fn calm_evade_settles(timer: u64, dts: Seq<u64>, d: u64)
    requires
        forall|i: int| 0 <= i < dts.len() ==> dts[i] <= d,
        elapsed(dts) >= timer + RECOVER_HOLD_US + d,
    ensures
        calm_run(Phase::Evade, timer, dts).0 == Phase::Engage,
    decreases dts.len(),
{
    if dts.len() > 0 {
        let t = sat_sub(timer, dts[0]);
        let rest = dts.drop_first();
        assert(forall|i: int| 0 <= i < rest.len() ==> rest[i] == dts[i + 1]);
        if t == 0 {
            calm_recover_settles(RECOVER_HOLD_US, rest);
        } else {
            calm_evade_settles(t, rest, d);
        }
    }
}

proof fn calm_evade_holds(timer: u64, dts: Seq<u64>)
    requires
        elapsed(dts) < timer + RECOVER_HOLD_US,
    ensures
        calm_run(Phase::Evade, timer, dts).0 != Phase::Engage,
    decreases dts.len(),
{
    if dts.len() > 0 {
        let t = sat_sub(timer, dts[0]);
        let rest = dts.drop_first();
        elapsed_nonneg(rest);
        if t == 0 {
            calm_recover_holds(RECOVER_HOLD_US, rest);
        } else {
            calm_evade_holds(t, rest);
        }
    }
}

/// After an evasion starts, with no further critical threat and the ship inside the
/// outer ring, the autopilot is back in Engage once the evade hold, the recover hold
/// and one tick have elapsed (`d` bounds the tick length), and not before the two
/// holds have elapsed.
pub proof fn evasion_returns_to_engage(dts: Seq<u64>, d: u64)
    requires
        forall|i: int| 0 <= i < dts.len() ==> dts[i] <= d,
    ensures
        elapsed(dts) >= EVADE_HOLD_US + RECOVER_HOLD_US + d ==> calm_run(Phase::Evade, EVADE_HOLD_US, dts).0
            == Phase::Engage,
        elapsed(dts) < EVADE_HOLD_US + RECOVER_HOLD_US ==> calm_run(Phase::Evade, EVADE_HOLD_US, dts).0
            != Phase::Engage,
{
    if elapsed(dts) >= EVADE_HOLD_US + RECOVER_HOLD_US + d {
        calm_evade_settles(EVADE_HOLD_US, dts, d);
    }
    if elapsed(dts) < EVADE_HOLD_US + RECOVER_HOLD_US {
        calm_evade_holds(EVADE_HOLD_US, dts);
    }
}

/// A tick that observes a critical threat ends in Evade with a full hold, whatever the
/// phase, timer, tick length and ring position were.
pub proof fn critical_threat_forces_evade(phase: Phase, timer: u64, dt: u64, outside_ring: bool)
    ensures
        phase_tick(phase, timer, dt, true, outside_ring) == (Phase::Evade, EVADE_HOLD_US),
{
}

} // verus!
