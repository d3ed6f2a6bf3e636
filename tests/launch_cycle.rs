use siege::geom::{Dir3i, Vec3i};
use siege::trebuchet::{LaunchAction, LaunchState, Trebuchet, LengthLimits, Observation};
use siege::projectile::{ProjectleKey, Projectiles, ProjectleSpawn};
use siege::random::{flight_lifetime_secs, reload_delay_secs};
use siege::rig::Parts;

const SE: u64 = 2;
const BAR: u64 = 4;

fn parts() -> Parts {
    Parts { pivot: Some(1), se: Some(SE), arm: Some(3), bar: Some(BAR), cw: Some(5) }
}

fn base() -> Vec3i {
    Vec3i::new(10000, 100, 40000)
}

fn raised_arm() -> (Vec3i, Dir3i) {
    (Vec3i::new(10000, 5000, 40000), Dir3i::new(0, 0, -1000))
}

fn cocked_arm() -> (Vec3i, Dir3i) {
    (Vec3i::new(10000, 4000, 40000), Dir3i::new(0, 800, -600))
}

fn tensioned() -> Trebuchet {
    let mut l = Trebuchet::start_game(parts(), base(), 7);
    assert!(l.reload(7000));
    l
}

fn arming() -> Trebuchet {
    let mut l = tensioned();
    let (p, f) = cocked_arm();
    assert!(l.do_tension(p, f).is_some());
    l
}

fn ball_request() -> ProjectleSpawn {
    ProjectleSpawn { key: ProjectleKey::Ball, pos: Vec3i::new(10000, 5000, 26000), dir: None, impulse: None, lifetime: None }
}

fn loose_with_ball(ball: u64) -> (Trebuchet, Projectiles) {
    let mut l = arming();
    let mut ps = Projectiles::new();
    ps.spawn(ball, &ball_request());
    assert_eq!(l.do_arming(SE, ball, &ps), Some(ball));
    (l, ps)
}

#[test]
fn idle_timer_of_seven_units_enters_tension_with_link() {
    let mut l = Trebuchet::start_game(parts(), base(), 7);
    assert_eq!(l.state, LaunchState::Idle);
    assert!(l.link.is_none());
    assert!(!l.reload(6999));
    assert_eq!(l.state, LaunchState::Idle);
    assert!(l.reload(1));
    assert_eq!(l.state, LaunchState::Tension);
    let link = l.link.unwrap();
    assert_eq!(link.limits, Some(LengthLimits { min_mm: 100, max_mm: 20000 }));
    assert_eq!(link.body1, SE);
    assert_eq!(link.body2, BAR);
    assert!(l.reload.is_none());
}

#[test]
fn seven_units_at_once_enter_tension() {
    let l = tensioned();
    assert_eq!(l.state, LaunchState::Tension);
    assert_eq!(l.link.unwrap().limits, Some(LengthLimits { min_mm: 100, max_mm: 20000 }));
}

#[test]
fn tension_winches_limit_then_anchor() {
    let mut l = tensioned();
    let (p, f) = raised_arm();
    assert_eq!(l.do_tension(p, f), None);
    assert_eq!(l.link.unwrap().limits, Some(LengthLimits { min_mm: 1000, max_mm: 19950 }));
    assert_eq!(l.link.unwrap().anchor2, Vec3i::new(0, 1000, 8000));
    for _ in 0..379 {
        assert_eq!(l.do_tension(p, f), None);
    }
    assert_eq!(l.link.unwrap().limits, Some(LengthLimits { min_mm: 1000, max_mm: 1000 }));
    assert_eq!(l.link.unwrap().anchor2, Vec3i::new(0, 1000, 8000));
    assert_eq!(l.do_tension(p, f), None);
    assert_eq!(l.link.unwrap().limits, Some(LengthLimits { min_mm: 1000, max_mm: 1000 }));
    assert_eq!(l.link.unwrap().anchor2, Vec3i::new(0, 1000, 7950));
    assert_eq!(l.do_tension(p, f), None);
    assert_eq!(l.link.unwrap().anchor2, Vec3i::new(0, 1000, 7900));
    assert_eq!(l.state, LaunchState::Tension);
    let (cp, cf) = cocked_arm();
    assert_eq!(l.do_tension(cp, cf), Some(ball_request()));
    assert_eq!(l.state, LaunchState::Arming);
    assert!(l.link.is_some());
}

#[test]
fn cocked_arm_forces_arming_at_once() {
    let mut l = tensioned();
    let (p, f) = cocked_arm();
    let req = l.do_tension(p, f);
    assert_eq!(req, Some(ball_request()));
    assert_eq!(l.state, LaunchState::Arming);
    assert_eq!(l.link.unwrap().limits, Some(LengthLimits { min_mm: 100, max_mm: 20000 }));
    assert_eq!(l.do_tension(p, f), None);
    assert_eq!(l.state, LaunchState::Arming);
}

#[test]
fn ball_hooked_on_release_end_makes_carry_link() {
    let mut l = arming();
    let mut ps = Projectiles::new();
    ps.spawn(100, &ball_request());
    assert_eq!(l.do_arming(100, SE, &ps), Some(100));
    assert_eq!(l.state, LaunchState::Loose);
    let link = l.link.unwrap();
    assert_eq!(link.body1, SE);
    assert_eq!(link.body2, 100);
    assert_eq!(link.rest_mm, 1100);
    assert_eq!(link.limits, None);
    assert_eq!(link.compliance_micro, 1000);
    assert_eq!(link.linear_damping, 1000);
}

#[test]
fn collision_with_other_bodies_does_not_hook() {
    let mut l = arming();
    let mut ps = Projectiles::new();
    ps.spawn(100, &ball_request());
    ps.spawn(101, &ProjectleSpawn { key: ProjectleKey::Bullet, pos: Vec3i::new(0, 0, 0), dir: None, impulse: None, lifetime: None });
    assert_eq!(l.do_arming(SE, 101, &ps), None);
    assert_eq!(l.do_arming(SE, 999, &ps), None);
    assert_eq!(l.do_arming(7, 100, &ps), None);
    assert!(ps.release(100, 15));
    assert_eq!(l.do_arming(SE, 100, &ps), None);
    assert_eq!(l.state, LaunchState::Arming);
}

#[test]
fn hooking_only_happens_while_arming() {
    let mut l = tensioned();
    let mut ps = Projectiles::new();
    ps.spawn(100, &ball_request());
    assert_eq!(l.do_arming(SE, 100, &ps), None);
    assert_eq!(l.state, LaunchState::Tension);
}

#[test]
fn release_at_vertical_returns_to_idle() {
    let (mut l, mut ps) = loose_with_ball(100);
    let lifetime = flight_lifetime_secs();
    assert!((15..20).contains(&lifetime));
    let r = l.do_loose(Vec3i::new(10000, 20000, 40000), lifetime, 6);
    assert_eq!(r, Some((100, lifetime)));
    assert_eq!(l.state, LaunchState::Idle);
    assert!(l.link.is_none());
    assert_eq!(l.reload.unwrap().duration_ms, 6000);
    assert!(ps.release(100, lifetime));
    let p = ps.items[0];
    assert!(p.targetable);
    assert!(p.released);
    assert_eq!(p.lifetime.unwrap().duration_ms, lifetime * 1000);
}

#[test]
fn no_release_below_unhooking_angle() {
    let (mut l, _) = loose_with_ball(100);
    // cosine 5000 / sqrt(5000^2 + 1000^2), about 0.98
    assert_eq!(l.do_loose(Vec3i::new(11000, 4100 + 5000, 40000), 16, 6), None);
    assert_eq!(l.state, LaunchState::Loose);
    assert!(l.link.is_some());
    // cosine 10000 / sqrt(10000^2 + 1000^2), about 0.995
    assert_eq!(l.do_loose(Vec3i::new(11000, 4100 + 10000, 40000), 16, 6), Some((100, 16)));
}

#[test]
fn release_end_below_reference_never_releases() {
    let (mut l, _) = loose_with_ball(100);
    assert_eq!(l.do_loose(Vec3i::new(10000, 0, 40000), 16, 6), None);
    assert_eq!(l.do_loose(Vec3i::new(10000, 4100, 40000), 16, 6), None);
}

#[test]
fn full_cycle_visits_states_in_order() {
    let mut seen = vec![];
    let mut l = Trebuchet::start_game(parts(), base(), 5);
    seen.push(l.state);
    l.reload(5000);
    seen.push(l.state);
    let (p, f) = cocked_arm();
    l.do_tension(p, f);
    seen.push(l.state);
    let mut ps = Projectiles::new();
    ps.spawn(100, &ball_request());
    l.do_arming(SE, 100, &ps);
    seen.push(l.state);
    l.do_loose(Vec3i::new(10000, 30000, 40000), 15, 9);
    seen.push(l.state);
    assert_eq!(seen, vec![LaunchState::Idle, LaunchState::Tension, LaunchState::Arming, LaunchState::Loose, LaunchState::Idle]);
}

#[test]
fn steps_out_of_their_state_change_nothing() {
    let mut l = Trebuchet::start_game(parts(), base(), 5);
    let before = l;
    let (p, f) = cocked_arm();
    assert_eq!(l.do_tension(p, f), None);
    assert_eq!(l.do_loose(Vec3i::new(10000, 30000, 40000), 15, 9), None);
    assert_eq!(l, before);
}

#[test]
fn random_reload_delay_in_range() {
    let draws: Vec<u64> = (0..200).map(|_| reload_delay_secs()).collect();
    assert!(draws.iter().all(|d| (5..10).contains(d)));
    assert!(draws.iter().any(|&d| d != 5));
    assert!(draws.iter().any(|&d| d != 9));
}

#[test]
fn random_flight_lifetime_in_range() {
    let draws: Vec<u64> = (0..200).map(|_| flight_lifetime_secs()).collect();
    assert!(draws.iter().all(|d| (15..20).contains(d)));
    assert!(draws.iter().any(|&d| d != 15));
}

#[test]
fn link_present_exactly_outside_idle() {
    let mut l = Trebuchet::start_game(parts(), base(), 5);
    assert!(l.link.is_none());
    l.reload(4000);
    assert!(l.link.is_none());
    l.reload(1000);
    assert!(l.link.is_some());
    let (p, f) = cocked_arm();
    l.do_tension(p, f);
    assert_eq!(l.state, LaunchState::Arming);
    assert!(l.link.is_some());
    let mut ps = Projectiles::new();
    ps.spawn(100, &ball_request());
    l.do_arming(SE, 100, &ps);
    assert_eq!(l.link.unwrap().body2, 100);
    l.do_loose(Vec3i::new(10000, 30000, 40000), 15, 9);
    assert!(l.link.is_none());
}

fn obs(delta_ms: u64, arm: Option<(Vec3i, Dir3i)>, release_end: Option<Vec3i>) -> Observation {
    Observation { delta_ms, arm, release_end, lifetime_secs: 17, reload_secs: 8 }
}

#[test]
fn tick_moves_one_state_at_a_time() {
    let ps = Projectiles::new();
    let none: Vec<(u64, u64)> = vec![];
    let mut l = Trebuchet::start_game(parts(), base(), 7);
    let cocked = Some(cocked_arm());
    assert_eq!(l.tick(&obs(7000, cocked, None), &none, &ps), LaunchAction::Nothing);
    assert_eq!(l.state, LaunchState::Tension);
    assert_eq!(l.tick(&obs(16, cocked, None), &none, &ps), LaunchAction::SpawnBall(ball_request()));
    assert_eq!(l.state, LaunchState::Arming);
    assert_eq!(l.tick(&obs(16, cocked, Some(Vec3i::new(10000, 30000, 40000))), &none, &ps), LaunchAction::Nothing);
    assert_eq!(l.state, LaunchState::Arming);
}

#[test]
fn tick_hooks_first_matching_collision() {
    let mut l = arming();
    let mut ps = Projectiles::new();
    ps.spawn(100, &ball_request());
    ps.spawn(101, &ball_request());
    let cs = vec![(50, 51), (100, SE), (SE, 101)];
    assert_eq!(l.tick(&obs(16, None, Some(Vec3i::new(10000, 30000, 40000))), &cs, &ps), LaunchAction::HoldBall(100));
    assert_eq!(l.state, LaunchState::Loose);
    assert_eq!(l.link.unwrap().body2, 100);
    let cs2 = vec![(SE, 101)];
    assert_eq!(l.tick(&obs(16, None, Some(Vec3i::new(10000, 4100 + 5000, 41000))), &cs2, &ps), LaunchAction::Nothing);
    assert_eq!(l.link.unwrap().body2, 100);
    assert_eq!(l.tick(&obs(16, None, Some(Vec3i::new(10000, 30000, 40000))), &cs2, &ps), LaunchAction::Release(100, 17));
    assert_eq!(l.state, LaunchState::Idle);
    assert_eq!(l.reload.unwrap().duration_ms, 8000);
}

#[test]
fn tick_skips_launcher_whose_parts_are_missing() {
    let ps = Projectiles::new();
    let none: Vec<(u64, u64)> = vec![];
    let mut l = tensioned();
    let before = l;
    assert_eq!(l.tick(&obs(16, None, None), &none, &ps), LaunchAction::Nothing);
    assert_eq!(l, before);
}
