use siege::geom::Vec3i;
use siege::projectile::{shape_of, BodyShape, GameLayer, ProjectleKey, Projectiles, ProjectleSpawn};
use siege::timer::Timer;

fn bullet(lifetime: Option<u64>) -> ProjectleSpawn {
    ProjectleSpawn { key: ProjectleKey::Bullet, pos: Vec3i::new(0, 0, 0), dir: None, impulse: None, lifetime: lifetime }
}

#[test]
fn timer_finishes_once_elapsed_reaches_duration() {
    let mut t = Timer::new(1000);
    t.tick(400);
    assert!(!t.is_finished());
    assert_eq!(t.elapsed_ms, 400);
    t.tick(600);
    assert!(t.is_finished());
    assert_eq!(t.elapsed_ms, 1000);
    t.tick(5);
    assert!(t.is_finished());
}

#[test]
fn zeroed_timer_finishes_on_next_tick_only() {
    let mut t = Timer::from_secs(2);
    t.tick(100);
    t.set_duration(0);
    assert!(!t.is_finished());
    t.tick(0);
    assert!(t.is_finished());
    assert_eq!(t.elapsed_ms, 0);
}

#[test]
fn spawn_with_lifetime_is_released_not_targetable() {
    let mut ps = Projectiles::new();
    ps.spawn(1, &bullet(Some(2)));
    ps.spawn(2, &bullet(None));
    assert!(ps.items[0].released);
    assert!(!ps.items[0].targetable);
    assert_eq!(ps.items[0].lifetime.unwrap().duration_ms, 2000);
    assert!(!ps.items[1].released);
    assert!(ps.items[1].lifetime.is_none());
}

#[test]
fn timed_projectile_removed_on_timeout() {
    let mut ps = Projectiles::new();
    ps.spawn(1, &bullet(Some(2)));
    ps.spawn(2, &bullet(None));
    assert_eq!(ps.despawn_on_time(1999), Vec::<u64>::new());
    assert_eq!(ps.items.len(), 2);
    assert_eq!(ps.despawn_on_time(1), vec![1]);
    assert_eq!(ps.items.len(), 1);
    assert_eq!(ps.items[0].handle, 2);
}

#[test]
fn collision_destroys_on_next_tick_not_same_tick() {
    let mut ps = Projectiles::new();
    ps.spawn(1, &bullet(Some(2)));
    ps.spawn(2, &bullet(Some(2)));
    ps.despawn_on_collision(1, 77);
    assert_eq!(ps.items.len(), 2);
    assert!(!ps.items[0].lifetime.unwrap().finished);
    assert_eq!(ps.items[0].lifetime.unwrap().duration_ms, 0);
    assert_eq!(ps.items[1].lifetime.unwrap().duration_ms, 2000);
    assert_eq!(ps.despawn_on_time(0), vec![1]);
    assert_eq!(ps.items.len(), 1);
    assert_eq!(ps.items[0].handle, 2);
}

#[test]
fn collision_spares_unreleased_projectiles() {
    let mut ps = Projectiles::new();
    ps.spawn(5, &ProjectleSpawn { key: ProjectleKey::Ball, pos: Vec3i::new(0, 5000, 0), dir: None, impulse: None, lifetime: None });
    ps.despawn_on_collision(5, 6);
    assert!(ps.items[0].lifetime.is_none());
    assert_eq!(ps.despawn_on_time(100000), Vec::<u64>::new());
    assert!(ps.is_unreleased_ball(5));
    assert!(ps.release(5, 15));
    assert!(!ps.is_unreleased_ball(5));
    ps.despawn_on_collision(6, 5);
    assert_eq!(ps.despawn_on_time(1), vec![5]);
}

#[test]
fn release_of_unknown_handle_changes_nothing() {
    let mut ps = Projectiles::new();
    ps.spawn(1, &bullet(None));
    assert!(!ps.release(9, 15));
    assert!(!ps.items[0].targetable);
    assert_eq!(ps.find(9), None);
    assert_eq!(ps.find(1), Some(0));
}

#[test]
fn shapes_per_kind() {
    assert_eq!(shape_of(ProjectleKey::Ball), BodyShape { radius_mm: 550, density_milli: 14500, layer: GameLayer::Attacker });
    assert_eq!(shape_of(ProjectleKey::Bullet), BodyShape { radius_mm: 500, density_milli: 1000, layer: GameLayer::Defender });
}
