//! Turret engagement: claiming targets, tracking them, and firing bursts with a cooldown.
use vstd::prelude::*;
use crate::geom::{
    cos_above, diff, dist_sq, distance_squared, dot, exceeds_cos, lemma_mul_bound, lemma_square_bound, norm_sq, Dir3i,
    Vec3i, V3,
};
use crate::projectile::{ProjectleKey, ProjectleSpawn};

verus! {

/// Least time between two bursts of one barrel, in milliseconds.
pub const COOLDOWN_MS: u64 = 500;
/// A barrel is ready to fire once the cosine of its angle off the target exceeds
/// `AIM_COS_NUM / AIM_COS_DEN`.
pub const AIM_COS_NUM: i128 = 19;
pub const AIM_COS_DEN: i128 = 20;
/// Bullets per burst.
pub const BURST_SIZE: usize = 12;
/// The first bullet of a burst starts this many world units along the barrel.
pub const BURST_START_UNITS: i32 = 15;
/// Impulse given to each bullet, in world units.
pub const BULLET_IMPULSE_UNITS: i32 = 1000;
/// Lifetime of a bullet, in seconds.
pub const BULLET_LIFETIME_SECS: u64 = 2;
/// How far a turret stands from its radar, towards the middle of the field.
pub const TURRET_SIDE_MM: i32 = 20000;

/// Where the turret that goes with a radar at `radar` stands: a fixed distance from it
/// towards x = 0 (a radar at x = 0 counts as standing on the positive side).
pub open spec fn spec_turret_position(radar: Vec3i) -> Vec3i {
    Vec3i {
        x: if radar.x >= 0 { (radar.x - TURRET_SIDE_MM) as i32 } else { (radar.x + TURRET_SIDE_MM) as i32 },
        ..radar
    }
}

pub fn turret_position(radar: Vec3i) -> (r: Vec3i)
    ensures
        r == spec_turret_position(radar),
{
    let x = if radar.x >= 0 { radar.x - TURRET_SIDE_MM } else { radar.x + TURRET_SIDE_MM };
    Vec3i { x, y: radar.y, z: radar.z }
}

/// A firing unit.
#[derive(Clone, Copy, Debug, PartialEq, Eq)]
pub struct Barrel {
    pub handle: u64,
    /// The turret that carries it.
    pub turret: u64,
    /// The one target it is assigned, if any.
    pub target: Option<u64>,
    /// When it last fired, in milliseconds of simulation time.
    pub last_shot_ms: u64,
    /// Aligned with its target closely enough to fire.
    pub ready: bool,
}

/// A point in micrometres: a target's position scaled by the aim jitter.
#[derive(Clone, Copy, Debug, PartialEq, Eq, Structural)]
pub struct AimPoint {
    pub x: i64,
    pub y: i64,
    pub z: i64,
}

impl AimPoint {
    pub open spec fn v(self) -> V3 {
        (self.x as int, self.y as int, self.z as int)
    }
}

/// The target's position scaled by `1 + jitter / 1000`, in micrometres.
pub open spec fn aim_of(target: Vec3i, jitter: u8) -> V3 {
    let f = 1000 + jitter;
    (target.x * f, target.y * f, target.z * f)
}

/// A point in micrometres.
pub open spec fn in_um(p: Vec3i) -> V3 {
    (p.x * 1000, p.y * 1000, p.z * 1000)
}

/// A target behind or below the barrel cannot be engaged.
pub open spec fn out_of_envelope(aim: V3, barrel: Vec3i) -> bool {
    aim.2 < barrel.z * 1000 || aim.1 < barrel.y * 1000
}

/// The barrel's forward direction is within the firing angle of the aim point.
pub open spec fn spec_aligned(fwd: Dir3i, aim: V3, barrel: Vec3i) -> bool {
    let d = diff(aim, in_um(barrel));
    cos_above(dot(fwd.v(), d), norm_sq(fwd.v()), norm_sq(d), AIM_COS_NUM as int, AIM_COS_DEN as int)
}

impl Barrel {
    pub open spec fn spec_new(handle: u64, turret: u64) -> Barrel {
        Barrel { handle, turret, target: None, last_shot_ms: 0, ready: false }
    }

    pub fn new(handle: u64, turret: u64) -> (r: Barrel)
        ensures
            r == Barrel::spec_new(handle, turret),
    {
        Barrel { handle, turret, target: None, last_shot_ms: 0, ready: false }
    }

    /// The barrel without its target; without a target it is not ready either.
    pub open spec fn spec_cleared(self) -> Barrel {
        Barrel { target: None, ready: false, ..self }
    }

    pub open spec fn spec_follow(self, target_pos: Option<Vec3i>, jitter: u8, pos: Vec3i, fwd: Dir3i) -> Barrel {
        if self.target is None {
            self
        } else {
            match target_pos {
                None => self.spec_cleared(),
                Some(tp) => if out_of_envelope(aim_of(tp, jitter), pos) {
                    self.spec_cleared()
                } else {
                    Barrel { ready: spec_aligned(fwd, aim_of(tp, jitter), pos), ..self }
                },
            }
        }
    }

    /// Whether the barrel fires at time `now_ms`: it is ready, has a target, and more
    /// than the cooldown has passed since it last fired.
    pub open spec fn fires(self, now_ms: u64) -> bool {
        self.ready && self.target is Some && self.last_shot_ms + COOLDOWN_MS < now_ms
    }

    pub open spec fn spec_fire(self, now_ms: u64) -> Barrel {
        if self.fires(now_ms) {
            Barrel { last_shot_ms: now_ms, ..self }
        } else {
            self
        }
    }

    pub fn clear_target(&mut self)
        ensures
            *final(self) == old(self).spec_cleared(),
    {
        self.target = None;
        self.ready = false;
    }

    /// One tick of tracking, given where the target is (None once it is gone), the aim
    /// jitter drawn for this tick, and the barrel's own pose. A vanished target, or one
    /// behind or below the barrel, is dropped. Otherwise the barrel is ready to fire
    /// exactly when it points at the jittered target within the firing angle, and the
    /// jittered point is returned for the barrel to turn towards.
    pub fn follow(&mut self, target_pos: Option<Vec3i>, jitter: u8, pos: Vec3i, fwd: Dir3i) -> (r: Option<AimPoint>)
        requires
            fwd.wf(),
        ensures
            *final(self) == old(self).spec_follow(target_pos, jitter, pos, fwd),
            r is Some <==> (old(self).target is Some && final(self).target is Some),
            r is Some ==> r.unwrap().v() == aim_of(target_pos.unwrap(), jitter),
    {
        if self.target.is_none() {
            return None;
        }
        let tp = match target_pos {
            Some(tp) => tp,
            None => {
                self.clear_target();
                return None;
            },
        };
        let f: i64 = 1000 + jitter as i64;
        proof {
            lemma_mul_bound(tp.x as int, f as int, 0x8000_0000, 1255);
            lemma_mul_bound(tp.y as int, f as int, 0x8000_0000, 1255);
            lemma_mul_bound(tp.z as int, f as int, 0x8000_0000, 1255);
        }
        let aim = AimPoint { x: tp.x as i64 * f, y: tp.y as i64 * f, z: tp.z as i64 * f };
        if aim.z < pos.z as i64 * 1000 || aim.y < pos.y as i64 * 1000 {
            self.clear_target();
            return None;
        }
        let dx: i128 = aim.x as i128 - pos.x as i128 * 1000;
        let dy: i128 = aim.y as i128 - pos.y as i128 * 1000;
        let dz: i128 = aim.z as i128 - pos.z as i128 * 1000;
        let ghost m: int = 0x8000_0000int * 1255 + 0x8000_0000int * 1000;
        proof {
            assert(m * m < 0x1_0000_0000_0000_0000_0000_0000) by (nonlinear_arith)
                requires
                    m == 0x8000_0000int * 1255 + 0x8000_0000int * 1000,
            ;
            lemma_mul_bound(fwd.x as int, dx as int, 1000, m);
            lemma_mul_bound(fwd.y as int, dy as int, 1000, m);
            lemma_mul_bound(fwd.z as int, dz as int, 1000, m);
            lemma_square_bound(dx as int, m);
            lemma_square_bound(dy as int, m);
            lemma_square_bound(dz as int, m);
            lemma_square_bound(fwd.x as int, 1000);
            lemma_square_bound(fwd.y as int, 1000);
            lemma_square_bound(fwd.z as int, 1000);
        }
        let d: i128 = fwd.x as i128 * dx + fwd.y as i128 * dy + fwd.z as i128 * dz;
        let f2: i128 = fwd.x as i128 * fwd.x as i128 + fwd.y as i128 * fwd.y as i128 + fwd.z as i128 * fwd.z as i128;
        let d2: i128 = dx * dx + dy * dy + dz * dz;
        proof {
            assert(0 <= f2 <= 3_000_000);
            assert(0 <= d2 <= 3 * (m * m));
            assert(3_000_000 * (3 * (m * m)) < 0x4000_0000_0000_0000_0000_0000_0000) by (nonlinear_arith)
                requires
                    m == 0x8000_0000int * 1255 + 0x8000_0000int * 1000,
            ;
            assert(f2 * d2 <= 3_000_000 * (3 * (m * m))) by (nonlinear_arith)
                requires
                    0 <= f2 <= 3_000_000,
                    0 <= d2 <= 3 * (m * m),
            ;
            assert(0 <= f2 * d2) by (nonlinear_arith)
                requires
                    0 <= f2,
                    0 <= d2,
            ;
        }
        self.ready = exceeds_cos(d, f2, d2, AIM_COS_NUM, AIM_COS_DEN);
        Some(aim)
    }

    /// Fires if the barrel is ready, has a target and is past its cooldown at `now_ms`;
    /// firing stamps the time. Returns the burst to spawn from the barrel's pose, which is
    /// empty when it does not fire.
    pub fn fire(&mut self, now_ms: u64, pos: Vec3i, fwd: Dir3i) -> (r: Vec<ProjectleSpawn>)
        requires
            fwd.wf(),
            burst_fits(pos),
        ensures
            *final(self) == old(self).spec_fire(now_ms),
            r@ == (if old(self).fires(now_ms) {
                spec_burst(pos, fwd)
            } else {
                Seq::<ProjectleSpawn>::empty()
            }),
    {
        if self.ready && self.target.is_some() && self.last_shot_ms < now_ms && now_ms - self.last_shot_ms
            > COOLDOWN_MS {
            self.last_shot_ms = now_ms;
            burst(pos, fwd)
        } else {
            Vec::new()
        }
    }
}

/// Bullets of a burst from `pos` stay within 32-bit coordinates.
pub open spec fn burst_fits(pos: Vec3i) -> bool {
    &&& i32::MIN + 30000 <= pos.x <= i32::MAX - 30000
    &&& i32::MIN + 30000 <= pos.y <= i32::MAX - 30000
    &&& i32::MIN + 30000 <= pos.z <= i32::MAX - 30000
}

/// The `i`-th bullet of a burst: a little further along the barrel than the one before,
/// pushed forward, with a short life.
pub open spec fn spec_bullet(pos: Vec3i, fwd: Dir3i, i: int) -> ProjectleSpawn {
    let k = BURST_START_UNITS + i;
    ProjectleSpawn {
        key: ProjectleKey::Bullet,
        pos: Vec3i {
            x: (pos.x + fwd.x * k) as i32,
            y: (pos.y + fwd.y * k) as i32,
            z: (pos.z + fwd.z * k) as i32,
        },
        dir: None,
        impulse: Some(
            Vec3i {
                x: (fwd.x * BULLET_IMPULSE_UNITS) as i32,
                y: (fwd.y * BULLET_IMPULSE_UNITS) as i32,
                z: (fwd.z * BULLET_IMPULSE_UNITS) as i32,
            },
        ),
        lifetime: Some(BULLET_LIFETIME_SECS),
    }
}

pub open spec fn spec_burst(pos: Vec3i, fwd: Dir3i) -> Seq<ProjectleSpawn> {
    Seq::new(BURST_SIZE as nat, |i: int| spec_bullet(pos, fwd, i))
}

/// The bullets that a barrel at `pos` facing `fwd` fires in one burst.
pub fn burst(pos: Vec3i, fwd: Dir3i) -> (r: Vec<ProjectleSpawn>)
    requires
        fwd.wf(),
        burst_fits(pos),
    ensures
        r@ == spec_burst(pos, fwd),
{
    let mut out: Vec<ProjectleSpawn> = Vec::new();
    let impulse = Vec3i {
        x: fwd.x * BULLET_IMPULSE_UNITS,
        y: fwd.y * BULLET_IMPULSE_UNITS,
        z: fwd.z * BULLET_IMPULSE_UNITS,
    };
    let mut i: usize = 0;
    while i < BURST_SIZE
        invariant
            fwd.wf(),
            burst_fits(pos),
            0 <= i <= BURST_SIZE,
            impulse == spec_bullet(pos, fwd, 0).impulse.unwrap(),
            out@ =~= Seq::new(i as nat, |j: int| spec_bullet(pos, fwd, j)),
        decreases BURST_SIZE - i,
    {
        let k: i32 = BURST_START_UNITS + i as i32;
        proof {
            lemma_mul_bound(fwd.x as int, k as int, 1000, 30);
            lemma_mul_bound(fwd.y as int, k as int, 1000, 30);
            lemma_mul_bound(fwd.z as int, k as int, 1000, 30);
        }
        out.push(
            ProjectleSpawn {
                key: ProjectleKey::Bullet,
                pos: Vec3i { x: pos.x + fwd.x * k, y: pos.y + fwd.y * k, z: pos.z + fwd.z * k },
                dir: None,
                impulse: Some(impulse),
                lifetime: Some(BULLET_LIFETIME_SECS),
            },
        );
        i = i + 1;
    }
    out
}

/// `i` is the free barrel nearest to `target_pos` (by squared distance; the first such
/// barrel where several are equally near).
pub open spec fn nearest_free(barrels: Seq<Barrel>, pos: Seq<Vec3i>, target_pos: Vec3i, i: int) -> bool {
    &&& 0 <= i < barrels.len()
    &&& barrels[i].target is None
    &&& forall|j: int|
        0 <= j < barrels.len() && barrels[j].target is None ==> dist_sq(pos[i], target_pos) <= dist_sq(
            pos[j],
            target_pos,
        )
    &&& forall|j: int|
        0 <= j < i && barrels[j].target is None ==> dist_sq(pos[i], target_pos) < dist_sq(pos[j], target_pos)
}

pub open spec fn has_free(barrels: Seq<Barrel>) -> bool {
    exists|j: int| 0 <= j < barrels.len() && barrels[j].target is None
}

/// `barrels` after target `h` is lost: each barrel on it is cleared.
pub open spec fn spec_drop_target(barrels: Seq<Barrel>, h: u64) -> Seq<Barrel> {
    Seq::new(
        barrels.len(),
        |k: int|
            if barrels[k].target == Some(h) {
                barrels[k].spec_cleared()
            } else {
                barrels[k]
            },
    )
}

/// All the firing units of the defence.
pub struct Battery {
    pub barrels: Vec<Barrel>,
}

impl Battery {
    pub fn new() -> (r: Battery)
        ensures
            r.barrels@ == Seq::<Barrel>::empty(),
    {
        Battery { barrels: Vec::new() }
    }

    /// Adds barrel `handle` of turret `turret`, with no target and no shot fired yet.
    pub fn setup(&mut self, handle: u64, turret: u64)
        ensures
            final(self).barrels@ == old(self).barrels@.push(Barrel::spec_new(handle, turret)),
    {
        self.barrels.push(Barrel::new(handle, turret));
    }

    /// A target has been announced at `target_pos`; `barrel_pos` holds where each barrel
    /// is. The nearest barrel without a target claims it, and its index is returned. With
    /// every barrel busy the announcement is dropped and nothing changes.
    pub fn set_target(&mut self, target: u64, target_pos: Vec3i, barrel_pos: &Vec<Vec3i>) -> (r: Option<usize>)
        requires
            barrel_pos@.len() == old(self).barrels@.len(),
        ensures
            r is None <==> !has_free(old(self).barrels@),
            r is None ==> final(self).barrels@ == old(self).barrels@,
            r is Some ==> nearest_free(old(self).barrels@, barrel_pos@, target_pos, r.unwrap() as int)
                && final(self).barrels@ == old(self).barrels@.update(
                r.unwrap() as int,
                Barrel { target: Some(target), ..old(self).barrels@[r.unwrap() as int] },
            ),
    {
        let mut best: Option<usize> = None;
        let mut best_d: i128 = 0;
        let mut i: usize = 0;
        while i < self.barrels.len()
            invariant
                barrel_pos@.len() == self.barrels@.len(),
                0 <= i <= self.barrels@.len(),
                match best {
                    None => forall|j: int| 0 <= j < i ==> self.barrels@[j].target is Some,
                    Some(b) => {
                        &&& b < i
                        &&& best_d == dist_sq(barrel_pos@[b as int], target_pos)
                        &&& self.barrels@[b as int].target is None
                        &&& forall|j: int|
                            0 <= j < i && self.barrels@[j].target is None ==> best_d <= dist_sq(
                                barrel_pos@[j],
                                target_pos,
                            )
                        &&& forall|j: int|
                            0 <= j < b && self.barrels@[j].target is None ==> best_d < dist_sq(
                                barrel_pos@[j],
                                target_pos,
                            )
                    },
                },
            decreases self.barrels@.len() - i,
        {
            if self.barrels[i].target.is_none() {
                let d = distance_squared(barrel_pos[i], target_pos);
                match best {
                    None => {
                        best = Some(i);
                        best_d = d;
                    },
                    Some(_) => {
                        if d < best_d {
                            best = Some(i);
                            best_d = d;
                        }
                    },
                }
            }
            i = i + 1;
        }
        match best {
            None => None,
            Some(b) => {
                let mut barrel = self.barrels[b];
                barrel.target = Some(target);
                self.barrels.set(b, barrel);
                Some(b)
            },
        }
    }

    /// One tick of tracking for barrel `i` (see `Barrel::follow`).
    pub fn follow(&mut self, i: usize, target_pos: Option<Vec3i>, jitter: u8, pos: Vec3i, fwd: Dir3i) -> (r: Option<AimPoint>)
        requires
            i < old(self).barrels@.len(),
            fwd.wf(),
        ensures
            final(self).barrels@ == old(self).barrels@.update(
                i as int,
                old(self).barrels@[i as int].spec_follow(target_pos, jitter, pos, fwd),
            ),
            r is Some <==> (old(self).barrels@[i as int].target is Some && final(self).barrels@[i as int].target is Some),
            r is Some ==> r.unwrap().v() == aim_of(target_pos.unwrap(), jitter),
    {
        let mut b = self.barrels[i];
        let r = b.follow(target_pos, jitter, pos, fwd);
        self.barrels.set(i, b);
        r
    }

    /// Fires barrel `i` if it may (see `Barrel::fire`), from its pose `pos`, `fwd`.
    pub fn fire(&mut self, i: usize, now_ms: u64, pos: Vec3i, fwd: Dir3i) -> (r: Vec<ProjectleSpawn>)
        requires
            i < old(self).barrels@.len(),
            fwd.wf(),
            burst_fits(pos),
        ensures
            final(self).barrels@ == old(self).barrels@.update(i as int, old(self).barrels@[i as int].spec_fire(now_ms)),
            r@ == (if old(self).barrels@[i as int].fires(now_ms) {
                spec_burst(pos, fwd)
            } else {
                Seq::<ProjectleSpawn>::empty()
            }),
    {
        let mut b = self.barrels[i];
        let r = b.fire(now_ms, pos, fwd);
        self.barrels.set(i, b);
        r
    }

    /// Target `h` is gone: every barrel assigned to it drops it, and is no longer ready.
    pub fn ball_despawn(&mut self, h: u64)
        ensures
            final(self).barrels@ == spec_drop_target(old(self).barrels@, h),
    {
        let ghost start = self.barrels@;
        let mut i: usize = 0;
        while i < self.barrels.len()
            invariant
                self.barrels@.len() == start.len(),
                0 <= i <= start.len(),
                forall|k: int|
                    0 <= k < i ==> self.barrels@[k] == if start[k].target == Some(h) {
                        start[k].spec_cleared()
                    } else {
                        start[k]
                    },
                forall|k: int| i <= k < start.len() ==> self.barrels@[k] == start[k],
            decreases start.len() - i,
        {
            let mut b = self.barrels[i];
            let hit = match b.target {
                Some(t) => t == h,
                None => false,
            };
            if hit {
                b.clear_target();
                self.barrels.set(i, b);
            }
            i = i + 1;
        }
        assert(self.barrels@ =~= spec_drop_target(start, h));
    }
}

/// Claiming a target never gives a barrel a second one: only a barrel without a target
/// takes the new one, and every barrel that had a target keeps exactly that target.
pub proof fn lemma_one_target_per_barrel(old_barrels: Seq<Barrel>, pos: Seq<Vec3i>, target_pos: Vec3i, i: int, target: u64)
    requires
        nearest_free(old_barrels, pos, target_pos, i),
    ensures
        forall|k: int|
            0 <= k < old_barrels.len() && old_barrels[k].target is Some ==> old_barrels.update(
                i,
                Barrel { target: Some(target), ..old_barrels[i] },
            )[k].target == old_barrels[k].target,
{
}

/// Two bursts of the same barrel are more than the cooldown apart: after a burst at `t1`,
/// a barrel whose last-shot time is still that burst's (tracking and claiming targets
/// leave it alone) fires again at `t2` only if `t2 > t1 + COOLDOWN_MS`.
pub proof fn lemma_bursts_separated(b: Barrel, t1: u64, later: Barrel, t2: u64)
    requires
        b.fires(t1),
        later.last_shot_ms == b.spec_fire(t1).last_shot_ms,
        later.fires(t2),
    ensures
        t2 > t1 + COOLDOWN_MS,
{
}

/// Tracking keeps a barrel's last-shot time, so it never shortens a cooldown.
pub proof fn lemma_follow_keeps_last_shot(b: Barrel, target_pos: Option<Vec3i>, jitter: u8, pos: Vec3i, fwd: Dir3i)
    ensures
        b.spec_follow(target_pos, jitter, pos, fwd).last_shot_ms == b.last_shot_ms,
        b.spec_cleared().last_shot_ms == b.last_shot_ms,
{
}

} // verus!
