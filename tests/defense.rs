use siege::geom::{distance_squared, exceeds_cos, Dir3i, Vec3i};
use siege::projectile::{ProjectleKey, ProjectleSpawn};
use siege::radar::{probe_origin, radar_positions, RadarTargets};
use siege::random::aim_jitter_permille;
use siege::turret::{burst, turret_position, AimPoint, Barrel, Battery};

#[test]
fn registry_holds_each_target_once() {
    let mut r = RadarTargets::new();
    assert_eq!(r.scan(Some(7)), Some(7));
    assert_eq!(r.scan(Some(7)), None);
    assert_eq!(r.scan(None), None);
    assert_eq!(r.scan(Some(8)), Some(8));
    assert_eq!(r.targets, vec![7, 8]);
    assert!(!r.register(8));
    assert_eq!(r.len(), 2);
}

#[test]
fn removing_absent_target_is_noop() {
    let mut r = RadarTargets::new();
    r.register(1);
    r.register(2);
    r.targetable_despawn(3);
    assert_eq!(r.targets, vec![1, 2]);
    assert_eq!(r.len(), 2);
}

#[test]
fn removing_target_swaps_in_last() {
    let mut r = RadarTargets::new();
    r.register(1);
    r.register(2);
    r.register(3);
    r.targetable_despawn(1);
    assert_eq!(r.targets, vec![3, 2]);
    assert!(!r.contains(1));
    assert_eq!(r.scan(Some(1)), Some(1));
}

#[test]
fn radars_and_turrets_stand_around_fortress() {
    let f = Vec3i::new(0, 2000, -120000);
    let rp = radar_positions(f);
    assert_eq!(rp, vec![Vec3i::new(-1000, 2000, -20000), Vec3i::new(100000, 2000, -20000)]);
    assert_eq!(turret_position(rp[0]), Vec3i::new(19000, 2000, -20000));
    assert_eq!(turret_position(rp[1]), Vec3i::new(80000, 2000, -20000));
    assert_eq!(turret_position(Vec3i::new(0, 0, 0)), Vec3i::new(-20000, 0, 0));
}

#[test]
fn probe_starts_ahead_of_antenna() {
    assert_eq!(probe_origin(Vec3i::new(100, 200, 300), Dir3i::new(0, 0, -1000)), Vec3i::new(100, 200, -14700));
}

fn three_barrels() -> Battery {
    let mut b = Battery::new();
    b.setup(10, 1);
    b.setup(11, 1);
    b.setup(12, 2);
    b
}

#[test]
fn nearest_free_barrel_claims_target() {
    let mut b = three_barrels();
    let pos = vec![Vec3i::new(0, 0, 0), Vec3i::new(5000, 0, 0), Vec3i::new(9000, 0, 0)];
    assert_eq!(b.set_target(77, Vec3i::new(8000, 0, 0), &pos), Some(2));
    assert_eq!(b.barrels[2].target, Some(77));
    assert_eq!(b.set_target(78, Vec3i::new(8000, 0, 0), &pos), Some(1));
    assert_eq!(b.barrels[2].target, Some(77));
    assert_eq!(b.set_target(79, Vec3i::new(8000, 0, 0), &pos), Some(0));
    assert_eq!(b.set_target(80, Vec3i::new(8000, 0, 0), &pos), None);
    assert_eq!(b.barrels[0].target, Some(79));
    assert_eq!(b.barrels[1].target, Some(78));
    assert_eq!(b.barrels[2].target, Some(77));
}

#[test]
fn equally_near_barrels_pick_the_first() {
    let mut b = three_barrels();
    let pos = vec![Vec3i::new(-1000, 0, 0), Vec3i::new(1000, 0, 0), Vec3i::new(0, 0, 5000)];
    assert_eq!(b.set_target(5, Vec3i::new(0, 0, 0), &pos), Some(0));
}

#[test]
fn lost_target_clears_every_barrel_on_it() {
    let mut b = three_barrels();
    let pos = vec![Vec3i::new(0, 0, 0), Vec3i::new(5000, 0, 0), Vec3i::new(9000, 0, 0)];
    b.set_target(77, Vec3i::new(0, 0, 0), &pos);
    b.set_target(78, Vec3i::new(0, 0, 0), &pos);
    b.barrels[0].ready = true;
    b.ball_despawn(77);
    assert_eq!(b.barrels[0].target, None);
    assert!(!b.barrels[0].ready);
    assert_eq!(b.barrels[1].target, Some(78));
}

#[test]
fn follow_readies_aligned_barrel() {
    let mut br = Barrel::new(1, 2);
    br.target = Some(9);
    let pos = Vec3i::new(0, 0, 0);
    let aim = br.follow(Some(Vec3i::new(0, 1000, 100000)), 0, pos, Dir3i::new(0, 0, 1000));
    assert_eq!(aim, Some(AimPoint { x: 0, y: 1_000_000, z: 100_000_000 }));
    assert!(br.ready);
    assert_eq!(br.target, Some(9));
    let aim = br.follow(Some(Vec3i::new(0, 1000, 100000)), 100, pos, Dir3i::new(1000, 0, 0));
    assert_eq!(aim, Some(AimPoint { x: 0, y: 1_100_000, z: 110_000_000 }));
    assert!(!br.ready);
}

#[test]
fn follow_drops_target_behind_or_below() {
    let pos = Vec3i::new(0, 1000, 0);
    let mut br = Barrel::new(1, 2);
    br.target = Some(9);
    assert_eq!(br.follow(Some(Vec3i::new(0, 5000, -10)), 0, pos, Dir3i::new(0, 0, 1000)), None);
    assert_eq!(br.target, None);
    br.target = Some(9);
    br.ready = true;
    assert_eq!(br.follow(Some(Vec3i::new(0, 999, 5000)), 0, pos, Dir3i::new(0, 0, 1000)), None);
    assert_eq!(br.target, None);
    assert!(!br.ready);
    br.target = Some(9);
    assert_eq!(br.follow(None, 0, pos, Dir3i::new(0, 0, 1000)), None);
    assert_eq!(br.target, None);
}

#[test]
fn fire_respects_cooldown() {
    let mut br = Barrel::new(1, 2);
    let pos = Vec3i::new(0, 0, 0);
    let fwd = Dir3i::new(0, 0, 1000);
    assert!(br.fire(10000, pos, fwd).is_empty());
    br.target = Some(9);
    br.ready = true;
    assert!(br.fire(500, pos, fwd).is_empty());
    assert_eq!(br.fire(501, pos, fwd).len(), 12);
    assert_eq!(br.last_shot_ms, 501);
    assert!(br.fire(1001, pos, fwd).is_empty());
    assert_eq!(br.fire(1002, pos, fwd).len(), 12);
    assert_eq!(br.last_shot_ms, 1002);
}

#[test]
fn burst_spreads_bullets_along_barrel() {
    let b = burst(Vec3i::new(1000, 2000, 3000), Dir3i::new(0, 600, 800));
    assert_eq!(b.len(), 12);
    assert_eq!(
        b[0],
        ProjectleSpawn {
            key: ProjectleKey::Bullet,
            pos: Vec3i::new(1000, 2000 + 9000, 3000 + 12000),
            dir: None,
            impulse: Some(Vec3i::new(0, 600000, 800000)),
            lifetime: Some(2),
        }
    );
    assert_eq!(b[11].pos, Vec3i::new(1000, 2000 + 600 * 26, 3000 + 800 * 26));
}

#[test]
fn battery_fire_and_follow_by_index() {
    let mut b = three_barrels();
    let pos = vec![Vec3i::new(0, 0, 0), Vec3i::new(5000, 0, 0), Vec3i::new(9000, 0, 0)];
    b.set_target(77, Vec3i::new(0, 0, 50000), &pos);
    let aim = b.follow(0, Some(Vec3i::new(0, 0, 50000)), 0, pos[0], Dir3i::new(0, 0, 1000));
    assert!(aim.is_some());
    assert!(b.barrels[0].ready);
    assert_eq!(b.fire(0, 600, pos[0], Dir3i::new(0, 0, 1000)).len(), 12);
    assert!(b.fire(1, 600, pos[1], Dir3i::new(0, 0, 1000)).is_empty());
}

#[test]
fn cosine_threshold_is_exact() {
    assert!(!exceeds_cos(94, 100, 100, 19, 20));
    assert!(exceeds_cos(96, 100, 100, 19, 20));
    assert!(!exceeds_cos(95, 100, 100, 19, 20));
    assert!(!exceeds_cos(-96, 100, 100, 19, 20));
    assert_eq!(distance_squared(Vec3i::new(1, 2, 3), Vec3i::new(4, 6, 3)), 25);
}

#[test]
fn jitter_below_bound() {
    let draws: Vec<u8> = (0..200).map(|_| aim_jitter_permille()).collect();
    assert!(draws.iter().all(|&j| j < 200));
    assert!(draws.iter().any(|&j| j != 0));
}

#[test]
fn lost_target_leaves_registry_and_barrels() {
    let mut d = siege::defense::Defense::new();
    d.battery.setup(10, 1);
    d.battery.setup(11, 1);
    assert_eq!(d.registry.scan(Some(77)), Some(77));
    assert_eq!(d.registry.scan(Some(78)), Some(78));
    let pos = vec![Vec3i::new(0, 0, 0), Vec3i::new(5000, 0, 0)];
    assert_eq!(d.battery.set_target(77, Vec3i::new(0, 0, 0), &pos), Some(0));
    d.target_gone(77);
    assert_eq!(d.registry.targets, vec![78]);
    assert_eq!(d.battery.barrels[0].target, None);
    d.target_gone(99);
    assert_eq!(d.registry.len(), 1);
    assert_eq!(d.battery.set_target(79, Vec3i::new(0, 0, 0), &pos), Some(0));
}
