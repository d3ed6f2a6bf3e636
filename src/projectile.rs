//! Projectile lifecycle: spawning, ageing, release as a target, and removal on timeout
//! or after a collision.
use vstd::prelude::*;
use crate::geom::{Dir3i, Vec3i};
use crate::timer::{secs_to_ms, Timer};

verus! {

/// Radius of a ball hurled by a launcher, in millimetres.
pub const BALL_RADIUS_MM: i32 = 550;
/// Density of a ball, in thousandths.
pub const BALL_DENSITY_MILLI: u32 = 14500;
/// Radius of an interceptor bullet, in millimetres.
pub const BULLET_RADIUS_MM: i32 = 500;
/// Density of a bullet, in thousandths.
pub const BULLET_DENSITY_MILLI: u32 = 1000;

#[derive(Clone, Copy, Debug, PartialEq, Eq, Structural)]
pub enum ProjectleKey {
    Ball,
    Bullet,
}

/// Collision layers: attackers are what the radar looks for.
#[derive(Clone, Copy, Debug, PartialEq, Eq, Structural)]
pub enum GameLayer {
    Attacker,
    Defender,
    Env,
}

/// Physical make-up of a projectile of a given kind.
#[derive(Clone, Copy, Debug, PartialEq, Eq, Structural)]
pub struct BodyShape {
    pub radius_mm: i32,
    pub density_milli: u32,
    pub layer: GameLayer,
}

pub open spec fn spec_shape_of(kind: ProjectleKey) -> BodyShape {
    match kind {
        ProjectleKey::Ball => BodyShape {
            radius_mm: BALL_RADIUS_MM,
            density_milli: BALL_DENSITY_MILLI,
            layer: GameLayer::Attacker,
        },
        ProjectleKey::Bullet => BodyShape {
            radius_mm: BULLET_RADIUS_MM,
            density_milli: BULLET_DENSITY_MILLI,
            layer: GameLayer::Defender,
        },
    }
}

/// Size, weight and collision layer of a projectile of `kind`.
pub fn shape_of(kind: ProjectleKey) -> (r: BodyShape)
    ensures
        r == spec_shape_of(kind),
{
    match kind {
        ProjectleKey::Ball => BodyShape {
            radius_mm: BALL_RADIUS_MM,
            density_milli: BALL_DENSITY_MILLI,
            layer: GameLayer::Attacker,
        },
        ProjectleKey::Bullet => BodyShape {
            radius_mm: BULLET_RADIUS_MM,
            density_milli: BULLET_DENSITY_MILLI,
            layer: GameLayer::Defender,
        },
    }
}

/// A request to create a projectile.
#[derive(Clone, Copy, Debug, PartialEq, Eq)]
pub struct ProjectleSpawn {
    pub key: ProjectleKey,
    pub pos: Vec3i,
    pub dir: Option<Dir3i>,
    /// Initial impulse, in thousandths of a world unit.
    pub impulse: Option<Vec3i>,
    /// Seconds to live, for a timed projectile.
    pub lifetime: Option<u64>,
}

/// A live projectile.
#[derive(Clone, Copy, Debug, PartialEq, Eq)]
pub struct Projectile {
    pub handle: u64,
    pub kind: ProjectleKey,
    /// Countdown to removal, if the projectile is timed.
    pub lifetime: Option<Timer>,
    /// A released projectile has its countdown cut short by a collision.
    pub released: bool,
    /// A targetable projectile may be acquired by radars and turrets.
    pub targetable: bool,
}

impl Projectile {
    /// The projectile that `req` creates under `handle`: timed and released exactly when
    /// the request gives a lifetime, and not yet targetable.
    pub open spec fn spec_spawned(handle: u64, req: ProjectleSpawn) -> Projectile {
        Projectile {
            handle,
            kind: req.key,
            lifetime: match req.lifetime {
                Some(s) => Some(Timer::spec_new(secs_to_ms(s))),
                None => None,
            },
            released: req.lifetime is Some,
            targetable: false,
        }
    }

    pub open spec fn spec_ticked(self, delta_ms: u64) -> Projectile {
        match self.lifetime {
            Some(t) => Projectile { lifetime: Some(t.spec_tick(delta_ms)), ..self },
            None => self,
        }
    }

    pub open spec fn expires(self) -> bool {
        self.lifetime is Some && self.lifetime.unwrap().finished
    }

    /// Whether a collision between `a` and `b` cuts this projectile's countdown short.
    pub open spec fn struck(self, a: u64, b: u64) -> bool {
        self.released && self.lifetime is Some && (self.handle == a || self.handle == b)
    }

    /// After a collision between `a` and `b`: a struck projectile's countdown has its
    /// duration set to zero.
    pub open spec fn spec_hit(self, a: u64, b: u64) -> Projectile {
        if self.struck(a, b) {
            Projectile {
                lifetime: Some(Timer { duration_ms: 0, ..self.lifetime.unwrap() }),
                ..self
            }
        } else {
            self
        }
    }

    /// Released as a target, with a fresh countdown of `lifetime_secs` seconds.
    pub open spec fn spec_released(self, lifetime_secs: u64) -> Projectile {
        Projectile {
            lifetime: Some(Timer::spec_new(secs_to_ms(lifetime_secs))),
            released: true,
            targetable: true,
            ..self
        }
    }
}

/// Projectiles that are still alive after a tick of `delta_ms`, in their order.
pub open spec fn survivors(s: Seq<Projectile>, delta_ms: u64) -> Seq<Projectile>
    decreases s.len(),
{
    if s.len() == 0 {
        seq![]
    } else {
        let prev = survivors(s.drop_last(), delta_ms);
        let p = s.last().spec_ticked(delta_ms);
        if p.expires() {
            prev
        } else {
            prev.push(p)
        }
    }
}

/// Handles of the projectiles that a tick of `delta_ms` removes, in their order.
pub open spec fn expired(s: Seq<Projectile>, delta_ms: u64) -> Seq<u64>
    decreases s.len(),
{
    if s.len() == 0 {
        seq![]
    } else {
        let prev = expired(s.drop_last(), delta_ms);
        let p = s.last().spec_ticked(delta_ms);
        if p.expires() {
            prev.push(p.handle)
        } else {
            prev
        }
    }
}

pub open spec fn hit_all(s: Seq<Projectile>, a: u64, b: u64) -> Seq<Projectile> {
    s.map_values(|p: Projectile| p.spec_hit(a, b))
}

/// `i` is the first position in `s` that holds `handle`.
pub open spec fn first_index(s: Seq<Projectile>, handle: u64, i: int) -> bool {
    0 <= i < s.len() && s[i].handle == handle && forall|j: int| 0 <= j < i ==> s[j].handle != handle
}

/// `handle` is a ball that has not been released as a target yet.
pub open spec fn spec_unreleased_ball(s: Seq<Projectile>, handle: u64) -> bool {
    exists|i: int| first_index(s, handle, i) && s[i].kind == ProjectleKey::Ball && !s[i].targetable
}

pub open spec fn holds_handle(s: Seq<Projectile>, handle: u64) -> bool {
    exists|i: int| 0 <= i < s.len() && s[i].handle == handle
}

/// No two projectiles in `s` share a handle.
pub open spec fn unique_handles(s: Seq<Projectile>) -> bool {
    forall|i: int, j: int| 0 <= i < s.len() && 0 <= j < s.len() && i != j ==> s[i].handle != s[j].handle
}

/// All live projectiles.
pub struct Projectiles {
    pub items: Vec<Projectile>,
}

impl Projectiles {
    pub open spec fn wf(&self) -> bool {
        unique_handles(self.items@)
    }

    pub fn new() -> (r: Projectiles)
        ensures
            r.items@ == Seq::<Projectile>::empty(),
            r.wf(),
    {
        Projectiles { items: Vec::new() }
    }

    /// Position of the first projectile with `handle`.
    pub fn find(&self, handle: u64) -> (r: Option<usize>)
        ensures
            match r {
                Some(i) => first_index(self.items@, handle, i as int),
                None => !holds_handle(self.items@, handle),
            },
    {
        let mut i: usize = 0;
        while i < self.items.len()
            invariant
                0 <= i <= self.items.len(),
                forall|j: int| 0 <= j < i ==> self.items@[j].handle != handle,
            decreases self.items.len() - i,
        {
            if self.items[i].handle == handle {
                return Some(i);
            }
            i = i + 1;
        }
        None
    }

    /// Whether `handle` is a ball that has not been released as a target yet.
    pub fn is_unreleased_ball(&self, handle: u64) -> (r: bool)
        ensures
            r == spec_unreleased_ball(self.items@, handle),
    {
        match self.find(handle) {
            Some(i) => {
                let p = self.items[i];
                match p.kind {
                    ProjectleKey::Ball => !p.targetable,
                    ProjectleKey::Bullet => false,
                }
            },
            None => false,
        }
    }

    /// Creates the projectile that `req` asks for, under a fresh `handle`.
    pub fn spawn(&mut self, handle: u64, req: &ProjectleSpawn)
        requires
            !holds_handle(old(self).items@, handle),
        ensures
            final(self).items@ == old(self).items@.push(Projectile::spec_spawned(handle, *req)),
            old(self).wf() ==> final(self).wf(),
    {
        let lifetime = match req.lifetime {
            Some(s) => Some(Timer::from_secs(s)),
            None => None,
        };
        let released = req.lifetime.is_some();
        self.items.push(Projectile { handle, kind: req.key, lifetime, released, targetable: false });
        proof {
            let o = old(self).items@;
            let t = self.items@;
            if unique_handles(o) {
                assert forall|i: int, j: int| 0 <= i < t.len() && 0 <= j < t.len() && i != j implies t[i].handle
                    != t[j].handle by {
                    if i == o.len() as int {
                        assert(o[j].handle == t[j].handle);
                    } else if j == o.len() as int {
                        assert(o[i].handle == t[i].handle);
                    }
                }
            }
        }
    }

    /// Marks the projectile `handle` as a released target with a countdown of
    /// `lifetime_secs`; false, with nothing changed, where no projectile has that handle.
    pub fn release(&mut self, handle: u64, lifetime_secs: u64) -> (r: bool)
        ensures
            r == holds_handle(old(self).items@, handle),
            !r ==> final(self).items@ == old(self).items@,
            r ==> exists|i: int|
                first_index(old(self).items@, handle, i) && final(self).items@ == old(self).items@.update(
                    i,
                    old(self).items@[i].spec_released(lifetime_secs),
                ),
            old(self).wf() ==> final(self).wf(),
    {
        match self.find(handle) {
            Some(i) => {
                let mut p = self.items[i];
                p.lifetime = Some(Timer::from_secs(lifetime_secs));
                p.released = true;
                p.targetable = true;
                self.items.set(i, p);
                assert(first_index(old(self).items@, handle, i as int));
                assert(forall|k: int| 0 <= k < self.items@.len() ==> self.items@[k].handle == old(self).items@[k].handle);
                true
            },
            None => false,
        }
    }

    /// Handles a collision between `a` and `b` that has ended: each released, timed
    /// projectile among them has its countdown cut to zero. Nothing is removed here; the
    /// next `despawn_on_time` does that.
    pub fn despawn_on_collision(&mut self, a: u64, b: u64)
        ensures
            final(self).items@ == hit_all(old(self).items@, a, b),
            old(self).wf() ==> final(self).wf(),
    {
        let ghost start = self.items@;
        let mut out: Vec<Projectile> = Vec::new();
        let mut i: usize = 0;
        while i < self.items.len()
            invariant
                self.items@ == start,
                0 <= i <= start.len(),
                out@ == hit_all(start.take(i as int), a, b),
            decreases start.len() - i,
        {
            let mut p = self.items[i];
            if p.released && (p.handle == a || p.handle == b) {
                match p.lifetime {
                    Some(t) => {
                        let mut t2 = t;
                        t2.set_duration(0);
                        p.lifetime = Some(t2);
                    },
                    None => {},
                }
            }
            out.push(p);
            proof {
                assert(start.take(i as int + 1) =~= start.take(i as int).push(start[i as int]));
                assert(hit_all(start.take(i as int + 1), a, b) =~= hit_all(start.take(i as int), a, b).push(
                    start[i as int].spec_hit(a, b),
                ));
            }
            i = i + 1;
        }
        assert(start.take(start.len() as int) =~= start);
        self.items = out;
        assert(forall|k: int| 0 <= k < self.items@.len() ==> self.items@[k].handle == start[k].handle);
    }

    /// Advances every countdown by `delta_ms` and removes the projectiles whose countdown
    /// has finished; returns their handles.
    pub fn despawn_on_time(&mut self, delta_ms: u64) -> (r: Vec<u64>)
        ensures
            final(self).items@ == survivors(old(self).items@, delta_ms),
            r@ == expired(old(self).items@, delta_ms),
            old(self).wf() ==> final(self).wf(),
    {
        let ghost start = self.items@;
        let mut kept: Vec<Projectile> = Vec::new();
        let mut gone: Vec<u64> = Vec::new();
        let mut i: usize = 0;
        while i < self.items.len()
            invariant
                self.items@ == start,
                0 <= i <= start.len(),
                kept@ == survivors(start.take(i as int), delta_ms),
                gone@ == expired(start.take(i as int), delta_ms),
            decreases start.len() - i,
        {
            let mut p = self.items[i];
            proof {
                assert(start.take(i as int + 1).drop_last() =~= start.take(i as int));
            }
            match p.lifetime {
                Some(t) => {
                    let mut t2 = t;
                    t2.tick(delta_ms);
                    p.lifetime = Some(t2);
                    if t2.is_finished() {
                        gone.push(p.handle);
                    } else {
                        kept.push(p);
                    }
                },
                None => {
                    kept.push(p);
                },
            }
            i = i + 1;
        }
        assert(start.take(start.len() as int) =~= start);
        proof {
            if unique_handles(start) {
                lemma_survivors_unique(start, delta_ms);
            }
        }
        self.items = kept;
        gone
    }
}

/// Survivors of a tick keep their handles, which stay unique.
proof fn lemma_survivors_unique(s: Seq<Projectile>, delta_ms: u64)
    requires
        unique_handles(s),
    ensures
        unique_handles(survivors(s, delta_ms)),
        forall|j: int|
            0 <= j < survivors(s, delta_ms).len() ==> exists|k: int|
                0 <= k < s.len() && s[k].handle == #[trigger] survivors(s, delta_ms)[j].handle,
    decreases s.len(),
{
    if s.len() > 0 {
        let d = s.drop_last();
        assert(unique_handles(d)) by {
            assert forall|i: int, j: int| 0 <= i < d.len() && 0 <= j < d.len() && i != j implies d[i].handle
                != d[j].handle by {
                assert(d[i] == s[i] && d[j] == s[j]);
            }
        }
        lemma_survivors_unique(d, delta_ms);
        let prev = survivors(d, delta_ms);
        let p = s.last().spec_ticked(delta_ms);
        let n = s.len() - 1;
        assert forall|j: int| 0 <= j < prev.len() implies prev[j].handle != p.handle by {
            let k = choose|k: int| 0 <= k < d.len() && d[k].handle == prev[j].handle;
            assert(s[k].handle == prev[j].handle);
            assert(k != n);
        }
        if !p.expires() {
            let t = prev.push(p);
            assert(survivors(s, delta_ms) == t);
            assert forall|i: int, j: int| 0 <= i < t.len() && 0 <= j < t.len() && i != j implies t[i].handle
                != t[j].handle by {
                if i == prev.len() as int {
                    assert(t[j] == prev[j]);
                } else if j == prev.len() as int {
                    assert(t[i] == prev[i]);
                } else {
                    assert(t[i] == prev[i] && t[j] == prev[j]);
                }
            }
            assert forall|j: int| 0 <= j < t.len() implies exists|k: int|
                0 <= k < s.len() && s[k].handle == #[trigger] t[j].handle by {
                if j == prev.len() as int {
                    assert(s[n].handle == t[j].handle);
                } else {
                    assert(t[j] == prev[j]);
                    let k = choose|k: int| 0 <= k < d.len() && d[k].handle == prev[j].handle;
                    assert(s[k].handle == t[j].handle);
                }
            }
        } else {
            assert forall|j: int| 0 <= j < prev.len() implies exists|k: int|
                0 <= k < s.len() && s[k].handle == #[trigger] prev[j].handle by {
                let k = choose|k: int| 0 <= k < d.len() && d[k].handle == prev[j].handle;
                assert(s[k].handle == prev[j].handle);
            }
        }
    }
}

/// A released, timed projectile that takes part in a collision is not removed by the
/// collision itself, and is removed by the very next tick, however short.
pub proof fn lemma_struck_removed_next_tick(s: Seq<Projectile>, a: u64, b: u64, k: int, delta_ms: u64)
    requires
        0 <= k < s.len(),
        s[k].struck(a, b),
    ensures
        hit_all(s, a, b).len() == s.len(),
        hit_all(s, a, b)[k].handle == s[k].handle,
        hit_all(s, a, b)[k].lifetime.unwrap().finished == s[k].lifetime.unwrap().finished,
        expired(hit_all(s, a, b), delta_ms).contains(s[k].handle),
        forall|j: int|
            0 <= j < survivors(hit_all(s, a, b), delta_ms).len() ==> !survivors(
                hit_all(s, a, b),
                delta_ms,
            )[j].struck(a, b),
{
    lemma_hit_expires(s, a, b, k, delta_ms);
    lemma_no_struck_survivor(hit_all(s, a, b), a, b, delta_ms);
}

proof fn lemma_hit_expires(s: Seq<Projectile>, a: u64, b: u64, k: int, delta_ms: u64)
    requires
        0 <= k < s.len(),
        s[k].struck(a, b),
    ensures
        expired(hit_all(s, a, b), delta_ms).contains(s[k].handle),
    decreases s.len(),
{
    let h = hit_all(s, a, b);
    assert(h.drop_last() =~= hit_all(s.drop_last(), a, b));
    if k == s.len() - 1 {
        let p = h.last().spec_ticked(delta_ms);
        assert(p.expires());
        assert(expired(h, delta_ms) == expired(h.drop_last(), delta_ms).push(p.handle));
        assert(expired(h, delta_ms).last() == p.handle);
    } else {
        lemma_hit_expires(s.drop_last(), a, b, k, delta_ms);
        let prev = expired(h.drop_last(), delta_ms);
        let hk = s[k].handle;
        let w = choose|w: int| 0 <= w < prev.len() && prev[w] == hk;
        let p = h.last().spec_ticked(delta_ms);
        if p.expires() {
            assert(expired(h, delta_ms)[w] == hk);
        } else {
            assert(expired(h, delta_ms)[w] == hk);
        }
    }
}

proof fn lemma_no_struck_survivor(h: Seq<Projectile>, a: u64, b: u64, delta_ms: u64)
    requires
        forall|j: int| 0 <= j < h.len() && h[j].struck(a, b) ==> h[j].lifetime.unwrap().duration_ms == 0,
    ensures
        forall|j: int|
            0 <= j < survivors(h, delta_ms).len() ==> !survivors(h, delta_ms)[j].struck(a, b),
    decreases h.len(),
{
    if h.len() > 0 {
        let d = h.drop_last();
        assert forall|j: int| 0 <= j < d.len() && d[j].struck(a, b) implies d[j].lifetime.unwrap().duration_ms
            == 0 by {
            assert(d[j] == h[j]);
        }
        lemma_no_struck_survivor(d, a, b, delta_ms);
        let p = h.last().spec_ticked(delta_ms);
        if p.struck(a, b) {
            assert(h[h.len() - 1].struck(a, b));
            assert(p.expires());
        }
        let prev = survivors(d, delta_ms);
        if !p.expires() {
            assert(survivors(h, delta_ms) == prev.push(p));
            assert forall|j: int| 0 <= j < prev.len() + 1 implies !prev.push(p)[j].struck(a, b) by {
                if j < prev.len() {
                    assert(prev.push(p)[j] == prev[j]);
                }
            }
        }
    }
}

} // verus!
