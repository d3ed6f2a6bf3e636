//! Radar sweep and the registry of tracked targets.
use vstd::prelude::*;
use crate::geom::{Dir3i, Vec3i};

verus! {

/// Sideways offsets of the two radars from the fortress, in millimetres: the first
/// stands just left of the fortress's line, the second well to its right.
pub const RADAR_LEFT_X_MM: i32 = -1000;
pub const RADAR_RIGHT_X_MM: i32 = 100000;
/// How far in front of the fortress the radars stand.
pub const RADAR_FRONT_Z_MM: i32 = 100000;
/// The probe starts this many world units along the antenna's forward axis.
pub const PROBE_START_UNITS: i32 = 15;
/// Size of the box that a radar sweeps, and how far it sweeps it.
pub const PROBE_X_MM: i32 = 50000;
pub const PROBE_Y_MM: i32 = 200000;
pub const PROBE_Z_MM: i32 = 50000;
pub const PROBE_RANGE_MM: i32 = 160000;

/// Where the two radars of a fortress at `fortress` stand.
pub open spec fn spec_radar_positions(fortress: Vec3i) -> Seq<Vec3i> {
    seq![
        Vec3i { x: (fortress.x + RADAR_LEFT_X_MM) as i32, y: fortress.y, z: (fortress.z + RADAR_FRONT_Z_MM) as i32 },
        Vec3i { x: (fortress.x + RADAR_RIGHT_X_MM) as i32, y: fortress.y, z: (fortress.z + RADAR_FRONT_Z_MM) as i32 },
    ]
}

/// Positions of the radars that guard a fortress at `fortress`.
pub fn radar_positions(fortress: Vec3i) -> (r: Vec<Vec3i>)
    requires
        fortress.x + RADAR_LEFT_X_MM >= i32::MIN,
        fortress.x + RADAR_RIGHT_X_MM <= i32::MAX,
        fortress.z + RADAR_FRONT_Z_MM <= i32::MAX,
    ensures
        r@ == spec_radar_positions(fortress),
{
    let z = fortress.z + RADAR_FRONT_Z_MM;
    let mut r: Vec<Vec3i> = Vec::new();
    r.push(Vec3i { x: fortress.x + RADAR_LEFT_X_MM, y: fortress.y, z });
    r.push(Vec3i { x: fortress.x + RADAR_RIGHT_X_MM, y: fortress.y, z });
    assert(r@ =~= spec_radar_positions(fortress));
    r
}

pub open spec fn spec_probe_origin(antenna: Vec3i, fwd: Dir3i) -> Vec3i {
    Vec3i {
        x: (antenna.x + fwd.x * PROBE_START_UNITS) as i32,
        y: (antenna.y + fwd.y * PROBE_START_UNITS) as i32,
        z: (antenna.z + fwd.z * PROBE_START_UNITS) as i32,
    }
}

/// Where an antenna at `antenna`, facing `fwd`, starts its probe.
pub fn probe_origin(antenna: Vec3i, fwd: Dir3i) -> (r: Vec3i)
    requires
        fwd.wf(),
        i32::MIN + 15000 <= antenna.x <= i32::MAX - 15000,
        i32::MIN + 15000 <= antenna.y <= i32::MAX - 15000,
        i32::MIN + 15000 <= antenna.z <= i32::MAX - 15000,
    ensures
        r == spec_probe_origin(antenna, fwd),
{
    Vec3i {
        x: antenna.x + fwd.x * PROBE_START_UNITS,
        y: antenna.y + fwd.y * PROBE_START_UNITS,
        z: antenna.z + fwd.z * PROBE_START_UNITS,
    }
}

/// `s` with `h` appended, unless it holds `h` already.
pub open spec fn spec_register(s: Seq<u64>, h: u64) -> Seq<u64> {
    if s.contains(h) {
        s
    } else {
        s.push(h)
    }
}

/// `s` without `h`: its last entry takes the place of `h`. Unchanged where `h` is absent.
pub open spec fn spec_remove(s: Seq<u64>, h: u64) -> Seq<u64> {
    if s.contains(h) {
        s.update(s.index_of(h), s.last()).drop_last()
    } else {
        s
    }
}

/// The targets currently handed to the defenders, each at most once.
pub struct RadarTargets {
    pub targets: Vec<u64>,
}

impl RadarTargets {
    pub open spec fn view(&self) -> Seq<u64> {
        self.targets@
    }

    pub open spec fn wf(&self) -> bool {
        self@.no_duplicates()
    }

    pub fn new() -> (r: RadarTargets)
        ensures
            r@ == Seq::<u64>::empty(),
            r.wf(),
    {
        RadarTargets { targets: Vec::new() }
    }

    pub fn len(&self) -> (r: usize)
        ensures
            r == self@.len(),
    {
        self.targets.len()
    }

    fn position(&self, h: u64) -> (r: Option<usize>)
        ensures
            match r {
                Some(i) => i < self@.len() && self@[i as int] == h,
                None => !self@.contains(h),
            },
    {
        let mut i: usize = 0;
        while i < self.targets.len()
            invariant
                0 <= i <= self@.len(),
                forall|j: int| 0 <= j < i ==> self@[j] != h,
            decreases self@.len() - i,
        {
            if self.targets[i] == h {
                return Some(i);
            }
            i = i + 1;
        }
        None
    }

    pub fn contains(&self, h: u64) -> (r: bool)
        ensures
            r == self@.contains(h),
    {
        self.position(h).is_some()
    }

    /// Adds `h` unless it is already there; returns whether it was added.
    pub fn register(&mut self, h: u64) -> (r: bool)
        requires
            old(self).wf(),
        ensures
            final(self).wf(),
            r == !old(self)@.contains(h),
            final(self)@ == spec_register(old(self)@, h),
    {
        if self.contains(h) {
            return false;
        }
        self.targets.push(h);
        proof {
            assert forall|i: int, j: int|
                0 <= i < self@.len() && 0 <= j < self@.len() && i != j implies self@[i] != self@[j] by {
                if i == old(self)@.len() as int {
                    assert(old(self)@.contains(self@[j]));
                } else if j == old(self)@.len() as int {
                    assert(old(self)@.contains(self@[i]));
                }
            }
        }
        true
    }

    /// One sweep of a radar: `hit` is what its probe found, if anything. A target not yet
    /// registered is registered and returned, to be announced to the defenders; anything
    /// else leaves the registry as it was and announces nothing.
    pub fn scan(&mut self, hit: Option<u64>) -> (r: Option<u64>)
        requires
            old(self).wf(),
        ensures
            final(self).wf(),
            match hit {
                Some(h) => if old(self)@.contains(h) {
                    r is None && final(self)@ == old(self)@
                } else {
                    r == Some(h) && final(self)@ == old(self)@.push(h)
                },
                None => r is None && final(self)@ == old(self)@,
            },
    {
        match hit {
            Some(h) => if self.register(h) {
                Some(h)
            } else {
                None
            },
            None => None,
        }
    }

    /// `h` stopped being a target: it leaves the registry. Where it is not there, nothing
    /// changes.
    pub fn targetable_despawn(&mut self, h: u64)
        requires
            old(self).wf(),
        ensures
            final(self).wf(),
            final(self)@ == spec_remove(old(self)@, h),
            old(self)@.contains(h) ==> final(self)@.len() == old(self)@.len() - 1,
            forall|x: u64| final(self)@.contains(x) <==> (old(self)@.contains(x) && x != h),
    {
        match self.position(h) {
            Some(i) => {
                let ghost s = self@;
                self.targets.swap_remove(i);
                proof {
                    let t = self@;
                    let last = s.len() - 1;
                    assert(s.contains(h));
                    let k = s.index_of(h);
                    assert(k == i);
                    assert(t =~= s.update(i as int, s.last()).drop_last());
                    assert forall|a: int, b: int| 0 <= a < t.len() && 0 <= b < t.len() && a != b implies t[a]
                        != t[b] by {
                        let sa = if a == i { last } else { a };
                        let sb = if b == i { last } else { b };
                        assert(t[a] == s[sa]);
                        assert(t[b] == s[sb]);
                    }
                    assert forall|x: u64| t.contains(x) <==> (s.contains(x) && x != h) by {
                        if t.contains(x) {
                            let a = choose|a: int| 0 <= a < t.len() && t[a] == x;
                            let sa = if a == i { last } else { a };
                            assert(s[sa] == x);
                            assert(sa != i);
                        }
                        if s.contains(x) && x != h {
                            let a = choose|a: int| 0 <= a < s.len() && s[a] == x;
                            assert(a != i);
                            if a == last {
                                assert(t[i as int] == x);
                            } else {
                                assert(t[a] == x);
                            }
                        }
                    }
                }
            },
            None => {},
        }
    }
}

/// The registry never holds a target twice, whatever is registered or removed; and
/// removing a target that is not there changes nothing, its size included.
pub proof fn lemma_registry_laws(s: Seq<u64>, h: u64)
    requires
        s.no_duplicates(),
    ensures
        spec_register(s, h).no_duplicates(),
        spec_remove(s, h).no_duplicates(),
        !s.contains(h) ==> spec_remove(s, h) == s && spec_remove(s, h).len() == s.len(),
        spec_register(spec_register(s, h), h) == spec_register(s, h),
{
    if !s.contains(h) {
        let t = s.push(h);
        assert(t[s.len() as int] == h);
        assert(t.contains(h));
        assert forall|i: int, j: int| 0 <= i < t.len() && 0 <= j < t.len() && i != j implies t[i] != t[j] by {
            if i == s.len() as int {
                assert(s.contains(t[j]));
            } else if j == s.len() as int {
                assert(s.contains(t[i]));
            }
        }
    } else {
        let k = s.index_of(h);
        let last = s.len() - 1;
        let t = s.update(k, s.last()).drop_last();
        assert forall|a: int, b: int| 0 <= a < t.len() && 0 <= b < t.len() && a != b implies t[a] != t[b] by {
            let sa = if a == k { last } else { a };
            let sb = if b == k { last } else { b };
            assert(t[a] == s[sa]);
            assert(t[b] == s[sb]);
        }
    }
}

} // verus!
