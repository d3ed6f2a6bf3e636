//! Rig discovery and assembly: binding a launcher's tagged parts, and planning the joints
//! and sling chain that turn them into a physical rig.
use vstd::prelude::*;
use crate::geom::Vec3i;

verus! {

/// Structural roles that a launcher asset's parts are tagged with.
#[derive(Clone, Copy, Debug, PartialEq, Eq, Structural)]
pub enum Role {
    Arm,
    Pivot,
    CounterWeight,
    Lock,
    Bar,
    Hill,
}

/// `p` occurs in `s` starting at position `i`.
pub open spec fn occurs_at(s: Seq<char>, p: Seq<char>, i: int) -> bool {
    0 <= i && i + p.len() <= s.len() && s.subrange(i, i + p.len()) == p
}

pub open spec fn contains_seq(s: Seq<char>, p: Seq<char>) -> bool {
    exists|i: int| occurs_at(s, p, i)
}

fn matches_at(s: &str, n: usize, p: &str, m: usize, i: usize) -> (r: bool)
    requires
        n == s@.len(),
        m == p@.len(),
        i + m <= n,
    ensures
        r == occurs_at(s@, p@, i as int),
{
    let mut k: usize = 0;
    while k < m
        invariant
            n == s@.len(),
            m == p@.len(),
            i + m <= n,
            0 <= k <= m,
            forall|t: int| 0 <= t < k ==> s@[i + t] == p@[t],
        decreases m - k,
    {
        if s.get_char(i + k) != p.get_char(k) {
            assert(s@.subrange(i as int, i + m)[k as int] != p@[k as int]);
            return false;
        }
        k = k + 1;
    }
    assert(s@.subrange(i as int, i + m) =~= p@);
    true
}

/// Whether `tag` holds `word` anywhere in it.
pub fn tag_contains(tag: &str, word: &str) -> (r: bool)
    ensures
        r == contains_seq(tag@, word@),
{
    let n = tag.unicode_len();
    let m = word.unicode_len();
    if m > n {
        return false;
    }
    let mut i: usize = 0;
    loop
        invariant
            n == tag@.len(),
            m == word@.len(),
            m <= n,
            0 <= i <= n - m,
            forall|j: int| 0 <= j < i ==> !occurs_at(tag@, word@, j),
        decreases n - m - i,
    {
        if matches_at(tag, n, word, m, i) {
            return true;
        }
        if i == n - m {
            return false;
        }
        i = i + 1;
    }
}

/// The role that a tag names, trying the words in the order Arm, Pivot, CounterWeight,
/// Lock, Bar, Hill.
pub open spec fn spec_role_of(tag: Seq<char>) -> Option<Role> {
    if contains_seq(tag, "Arm"@) {
        Some(Role::Arm)
    } else if contains_seq(tag, "Pivot"@) {
        Some(Role::Pivot)
    } else if contains_seq(tag, "CounterWeight"@) {
        Some(Role::CounterWeight)
    } else if contains_seq(tag, "Lock"@) {
        Some(Role::Lock)
    } else if contains_seq(tag, "Bar"@) {
        Some(Role::Bar)
    } else if contains_seq(tag, "Hill"@) {
        Some(Role::Hill)
    } else {
        None
    }
}

/// The role that an authored tag binds its node to, if any.
pub fn role_of_tag(tag: &str) -> (r: Option<Role>)
    ensures
        r == spec_role_of(tag@),
{
    if tag_contains(tag, "Arm") {
        Some(Role::Arm)
    } else if tag_contains(tag, "Pivot") {
        Some(Role::Pivot)
    } else if tag_contains(tag, "CounterWeight") {
        Some(Role::CounterWeight)
    } else if tag_contains(tag, "Lock") {
        Some(Role::Lock)
    } else if tag_contains(tag, "Bar") {
        Some(Role::Bar)
    } else if tag_contains(tag, "Hill") {
        Some(Role::Hill)
    } else {
        None
    }
}

/// Handles of a launcher's functional parts, each bound once found.
#[derive(Clone, Copy, Debug, PartialEq, Eq)]
pub struct Parts {
    pub pivot: Option<u64>,
    /// The release end of the sling, bound when the rig is built.
    pub se: Option<u64>,
    pub arm: Option<u64>,
    pub bar: Option<u64>,
    pub cw: Option<u64>,
}

impl Parts {
    pub open spec fn spec_new() -> Parts {
        Parts { pivot: None, se: None, arm: None, bar: None, cw: None }
    }

    /// Nothing bound yet.
    pub fn new() -> (r: Parts)
        ensures
            r == Parts::spec_new(),
    {
        Parts { pivot: None, se: None, arm: None, bar: None, cw: None }
    }

    /// All four required roles are bound.
    pub open spec fn spec_explored(self) -> bool {
        self.arm is Some && self.pivot is Some && self.cw is Some && self.bar is Some
    }

    /// Explored, and the sling's release end is bound.
    pub open spec fn spec_built(self) -> bool {
        self.spec_explored() && self.se is Some
    }

    pub fn is_explored(&self) -> (r: bool)
        ensures
            r == self.spec_explored(),
    {
        self.arm.is_some() && self.pivot.is_some() && self.cw.is_some() && self.bar.is_some()
    }

    pub fn is_built(&self) -> (r: bool)
        ensures
            r == self.spec_built(),
    {
        self.is_explored() && self.se.is_some()
    }

    /// These parts with node `h` bound to `role`; Lock and Hill nodes are only marked.
    pub open spec fn spec_bind(self, h: u64, role: Role) -> Parts {
        match role {
            Role::Arm => Parts { arm: Some(h), ..self },
            Role::Pivot => Parts { pivot: Some(h), ..self },
            Role::CounterWeight => Parts { cw: Some(h), ..self },
            Role::Bar => Parts { bar: Some(h), ..self },
            Role::Lock | Role::Hill => self,
        }
    }

    pub fn bind(&mut self, h: u64, role: Role)
        ensures
            *final(self) == old(self).spec_bind(h, role),
    {
        match role {
            Role::Arm => self.arm = Some(h),
            Role::Pivot => self.pivot = Some(h),
            Role::CounterWeight => self.cw = Some(h),
            Role::Bar => self.bar = Some(h),
            Role::Lock | Role::Hill => {},
        }
    }
}

/// A node of a loaded scene, with its authored tag where it has one.
#[derive(Debug)]
pub struct SceneNode {
    pub handle: u64,
    pub tag: Option<String>,
}

pub open spec fn node_role(n: SceneNode) -> Option<Role> {
    match n.tag {
        Some(t) => spec_role_of(t@),
        None => None,
    }
}

/// Parts bound by a depth-first walk over `nodes`: the last node of each role wins.
pub open spec fn parts_of(nodes: Seq<SceneNode>) -> Parts
    decreases nodes.len(),
{
    if nodes.len() == 0 {
        Parts::spec_new()
    } else {
        let prev = parts_of(nodes.drop_last());
        match node_role(nodes.last()) {
            Some(role) => prev.spec_bind(nodes.last().handle, role),
            None => prev,
        }
    }
}

/// Role markers that the walk attaches, in walk order.
pub open spec fn markers_of(nodes: Seq<SceneNode>) -> Seq<(u64, Role)>
    decreases nodes.len(),
{
    if nodes.len() == 0 {
        seq![]
    } else {
        let prev = markers_of(nodes.drop_last());
        match node_role(nodes.last()) {
            Some(role) => prev.push((nodes.last().handle, role)),
            None => prev,
        }
    }
}

/// What exploring a launcher's scene finds.
pub struct Exploration {
    pub parts: Parts,
    /// Each tagged node with the role marker that it receives.
    pub markers: Vec<(u64, Role)>,
}

/// Walks the descendants of a launcher's scene (given depth-first) and binds the parts
/// that their tags name.
pub fn explore(nodes: &Vec<SceneNode>) -> (r: Exploration)
    ensures
        r.parts == parts_of(nodes@),
        r.markers@ == markers_of(nodes@),
{
    let mut parts = Parts::new();
    let mut markers: Vec<(u64, Role)> = Vec::new();
    let mut i: usize = 0;
    while i < nodes.len()
        invariant
            0 <= i <= nodes@.len(),
            parts == parts_of(nodes@.take(i as int)),
            markers@ == markers_of(nodes@.take(i as int)),
        decreases nodes.len() - i,
    {
        proof {
            assert(nodes@.take(i as int + 1).drop_last() =~= nodes@.take(i as int));
        }
        let node = &nodes[i];
        match &node.tag {
            Some(t) => {
                match role_of_tag(t.as_str()) {
                    Some(role) => {
                        parts.bind(node.handle, role);
                        markers.push((node.handle, role));
                    },
                    None => {},
                }
            },
            None => {},
        }
        i = i + 1;
    }
    assert(nodes@.take(nodes@.len() as int) =~= nodes@);
    Exploration { parts, markers }
}

// Rig geometry, in millimetres.
/// Half the arm's length: the sling hangs from this far along the arm.
pub const ARM_HALF_LEN_MM: i32 = 7500;
/// Distance from the arm's centre to the pivot axis.
pub const PIVOT_OFFSET_MM: i32 = 4500;
/// Angular velocity damping of the pivot joint, in thousandths.
pub const PIVOT_DAMPING_MILLI: u32 = 100;
/// Height of the counterweight's hinge above its centre.
pub const CW_HINGE_MM: i32 = 1000;
/// Number of sling segments.
pub const SLING_SEGMENTS: usize = 8;
/// Length of one sling segment: an eighth of the 11.25-unit sling, to the millimetre.
pub const SLING_SEGMENT_LEN_MM: i32 = 1406;
/// Half a sling segment: where its joints attach.
pub const SLING_HALF_SEGMENT_MM: i32 = 703;

#[derive(Clone, Copy, Debug, PartialEq, Eq, Structural)]
pub enum JointKind {
    /// Rotation about the local X axis only.
    Revolute,
    /// Free rotation about a shared point.
    Spherical,
}

/// A joint to create between two bodies, with each body's local anchor.
#[derive(Clone, Copy, Debug, PartialEq, Eq, Structural)]
pub struct JointPlan {
    pub kind: JointKind,
    pub body1: u64,
    pub body2: u64,
    pub anchor1: Vec3i,
    pub anchor2: Vec3i,
    pub angular_damping_milli: u32,
}

pub open spec fn along_z(z: int) -> Vec3i {
    Vec3i { x: 0, y: 0, z: z as i32 }
}

/// The joint that hangs the arm on the pivot.
pub open spec fn pivot_joint(pivot: u64, arm: u64) -> JointPlan {
    JointPlan {
        kind: JointKind::Revolute,
        body1: pivot,
        body2: arm,
        anchor1: along_z(0),
        anchor2: along_z(-PIVOT_OFFSET_MM),
        angular_damping_milli: PIVOT_DAMPING_MILLI,
    }
}

/// The joint that hangs the counterweight on the arm's short end.
pub open spec fn counterweight_joint(arm: u64, cw: u64) -> JointPlan {
    JointPlan {
        kind: JointKind::Revolute,
        body1: arm,
        body2: cw,
        anchor1: along_z(-ARM_HALF_LEN_MM),
        anchor2: Vec3i { x: 0, y: CW_HINGE_MM, z: 0 },
        angular_damping_milli: 0,
    }
}

/// The `k`-th link of the chain arm, segments..., release end: the first hangs from the
/// arm's tip, the others from the far end of the previous segment; each holds the near
/// end of the next segment, and the last holds the release end at its centre.
pub open spec fn sling_joint(arm: u64, segments: Seq<u64>, end: u64, k: int) -> JointPlan {
    let n = segments.len() as int;
    JointPlan {
        kind: JointKind::Spherical,
        body1: if k == 0 { arm } else { segments[k - 1] },
        body2: if k < n { segments[k] } else { end },
        anchor1: if k == 0 { along_z(ARM_HALF_LEN_MM as int) } else { along_z(SLING_HALF_SEGMENT_MM as int) },
        anchor2: if k < n { along_z(-SLING_HALF_SEGMENT_MM) } else { along_z(0) },
        angular_damping_milli: 0,
    }
}

pub open spec fn spec_rig_joints(parts: Parts, segments: Seq<u64>, end: u64) -> Seq<JointPlan> {
    seq![
        pivot_joint(parts.pivot.unwrap(), parts.arm.unwrap()),
        counterweight_joint(parts.arm.unwrap(), parts.cw.unwrap()),
    ] + Seq::new(
        (segments.len() + 1) as nat,
        |k: int| sling_joint(parts.arm.unwrap(), segments, end, k),
    )
}

/// Where the `k`-th sling segment starts out: laid straight along the arm's Z axis from
/// its tip.
pub open spec fn segment_position(arm_pos: Vec3i, k: int) -> Vec3i {
    Vec3i {
        x: arm_pos.x,
        y: arm_pos.y,
        z: (arm_pos.z + ARM_HALF_LEN_MM + SLING_HALF_SEGMENT_MM + k * SLING_SEGMENT_LEN_MM) as i32,
    }
}

/// Starting positions of the sling's segments for an arm at `arm_pos`.
pub fn sling_layout(arm_pos: Vec3i) -> (r: Vec<Vec3i>)
    requires
        arm_pos.z + ARM_HALF_LEN_MM + SLING_HALF_SEGMENT_MM + SLING_SEGMENTS * SLING_SEGMENT_LEN_MM
            <= i32::MAX,
    ensures
        r@.len() == SLING_SEGMENTS,
        forall|k: int| 0 <= k < SLING_SEGMENTS ==> r@[k] == segment_position(arm_pos, k),
{
    let mut out: Vec<Vec3i> = Vec::new();
    let mut z: i64 = arm_pos.z as i64 + ARM_HALF_LEN_MM as i64 + SLING_HALF_SEGMENT_MM as i64;
    let mut k: usize = 0;
    while k < SLING_SEGMENTS
        invariant
            0 <= k <= SLING_SEGMENTS,
            out@.len() == k,
            z == arm_pos.z + ARM_HALF_LEN_MM + SLING_HALF_SEGMENT_MM + k * SLING_SEGMENT_LEN_MM,
            arm_pos.z + ARM_HALF_LEN_MM + SLING_HALF_SEGMENT_MM + SLING_SEGMENTS * SLING_SEGMENT_LEN_MM
                <= i32::MAX,
            forall|j: int| 0 <= j < k ==> out@[j] == segment_position(arm_pos, j),
        decreases SLING_SEGMENTS - k,
    {
        out.push(Vec3i { x: arm_pos.x, y: arm_pos.y, z: z as i32 });
        z = z + SLING_SEGMENT_LEN_MM as i64;
        k = k + 1;
    }
    out
}

/// The joints that assemble an explored launcher: the arm on its pivot, the counterweight
/// on the arm, and the sling chain from the arm's tip through `segments` to the release
/// end `end`. None, and nothing to build, while a required part is unbound.
pub fn setup(parts: &Parts, segments: &Vec<u64>, end: u64) -> (r: Option<Vec<JointPlan>>)
    requires
        segments@.len() < usize::MAX,
    ensures
        r is None <==> !parts.spec_explored(),
        r is Some ==> r.unwrap()@ == spec_rig_joints(*parts, segments@, end),
{
    if !parts.is_explored() {
        return None;
    }
    let pivot = parts.pivot.unwrap();
    let arm = parts.arm.unwrap();
    let cw = parts.cw.unwrap();
    let mut out: Vec<JointPlan> = Vec::new();
    out.push(
        JointPlan {
            kind: JointKind::Revolute,
            body1: pivot,
            body2: arm,
            anchor1: Vec3i { x: 0, y: 0, z: 0 },
            anchor2: Vec3i { x: 0, y: 0, z: -PIVOT_OFFSET_MM },
            angular_damping_milli: PIVOT_DAMPING_MILLI,
        },
    );
    out.push(
        JointPlan {
            kind: JointKind::Revolute,
            body1: arm,
            body2: cw,
            anchor1: Vec3i { x: 0, y: 0, z: -ARM_HALF_LEN_MM },
            anchor2: Vec3i { x: 0, y: CW_HINGE_MM, z: 0 },
            angular_damping_milli: 0,
        },
    );
    let ghost head = out@;
    let n = segments.len();
    let mut k: usize = 0;
    while k <= n
        invariant
            n == segments@.len(),
            n < usize::MAX,
            0 <= k <= n + 1,
            head == seq![pivot_joint(pivot, arm), counterweight_joint(arm, cw)],
            out@ == head + Seq::new(k as nat, |j: int| sling_joint(arm, segments@, end, j)),
        decreases n + 1 - k,
    {
        let body1 = if k == 0 { arm } else { segments[k - 1] };
        let body2 = if k < n { segments[k] } else { end };
        let anchor1 = if k == 0 { ARM_HALF_LEN_MM } else { SLING_HALF_SEGMENT_MM };
        let anchor2 = if k < n { -SLING_HALF_SEGMENT_MM } else { 0 };
        out.push(
            JointPlan {
                kind: JointKind::Spherical,
                body1,
                body2,
                anchor1: Vec3i { x: 0, y: 0, z: anchor1 },
                anchor2: Vec3i { x: 0, y: 0, z: anchor2 },
                angular_damping_milli: 0,
            },
        );
        proof {
            assert(head + Seq::new((k + 1) as nat, |j: int| sling_joint(arm, segments@, end, j)) =~= (head
                + Seq::new(k as nat, |j: int| sling_joint(arm, segments@, end, j))).push(
                sling_joint(arm, segments@, end, k as int),
            ));
        }
        k = k + 1;
    }
    Some(out)
}

} // verus!
