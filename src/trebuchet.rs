//! The launch cycle of one trebuchet: Idle, Tension, Arming, Loose, and back to Idle.
//!
//! Each method is one tick's decision for one launcher. It takes what the physics world
//! observed (poses, collisions) and the random draws it needs as arguments, updates the
//! launcher, and returns what the world must do (spawn a ball, release one).
use vstd::prelude::*;
use crate::geom::{cos_above, diff, exceeds_cos, lemma_square_bound, norm_sq, Dir3i, Vec3i, V3};
use crate::projectile::{spec_unreleased_ball, Projectile, ProjectleKey, Projectiles, ProjectleSpawn, BALL_RADIUS_MM};
use crate::rig::{Parts, ARM_HALF_LEN_MM};
use crate::timer::{secs_to_ms, Timer};

verus! {

/// Limits of the tension link when it is made.
pub const LINK_MIN_MM: i32 = 100;
pub const LINK_MAX_MM: i32 = 20000;
/// Where the tension link holds the anchor bar, in the bar's frame.
pub const LINK_ANCHOR_Y_MM: i32 = 1000;
pub const LINK_ANCHOR_Z_MM: i32 = 8000;
/// While the upper limit is above this, it is winched down; after, the anchor moves in.
pub const WINCH_FLOOR_MM: i32 = 1000;
/// How much the upper limit, or the anchor, moves in per tick.
pub const WINCH_STEP_MM: i32 = 50;
/// The lower limit of the tension link while it is winched down.
pub const LINK_SLACK_MM: i32 = 1000;
/// The arm counts as cocked once its long end is lower than this.
pub const ARM_COCKED_HEIGHT_MM: i32 = 1000;
/// Height, and distance behind the launcher, at which a ball is loaded.
pub const LOADER_HEIGHT_MM: i32 = 5000;
pub const LOADER_BACK_MM: i32 = 14000;
/// Compliance of the link that carries a ball, in millionths.
pub const CARRY_COMPLIANCE_MICRO: u32 = 1000;
/// Linear velocity damping of the link that carries a ball.
pub const CARRY_DAMPING: u32 = 1000;
/// Height above the launcher's base of the point that the release is judged from.
pub const RELEASE_REF_HEIGHT_MM: i32 = 4000;
/// The sling unhooks once the cosine of its angle from the vertical exceeds
/// `UNHOOK_COS_NUM / UNHOOK_COS_DEN`.
pub const UNHOOK_COS_NUM: i128 = 99;
pub const UNHOOK_COS_DEN: i128 = 100;

#[derive(Clone, Copy, Debug, PartialEq, Eq, Structural)]
pub enum LaunchState {
    Idle,
    Tension,
    Arming,
    Loose,
}

impl LaunchState {
    /// The state that follows this one in the cycle.
    pub open spec fn next(self) -> LaunchState {
        match self {
            LaunchState::Idle => LaunchState::Tension,
            LaunchState::Tension => LaunchState::Arming,
            LaunchState::Arming => LaunchState::Loose,
            LaunchState::Loose => LaunchState::Idle,
        }
    }
}

/// A change of state stays put or moves one step along the cycle.
pub open spec fn cycle_step(a: LaunchState, b: LaunchState) -> bool {
    b == a || b == a.next()
}

#[derive(Clone, Copy, Debug, PartialEq, Eq, Structural)]
pub struct LengthLimits {
    pub min_mm: i32,
    pub max_mm: i32,
}

/// The launcher's temporary distance joint, from the sling's release end (`body1`).
#[derive(Clone, Copy, Debug, PartialEq, Eq)]
pub struct Link {
    pub body1: u64,
    pub body2: u64,
    /// Anchor on `body2`, in its frame.
    pub anchor2: Vec3i,
    pub limits: Option<LengthLimits>,
    pub rest_mm: i32,
    pub compliance_micro: u32,
    pub linear_damping: u32,
}

/// The link that winches the sling's release end towards the anchor bar.
pub open spec fn spec_tension_link(se: u64, bar: u64) -> Link {
    Link {
        body1: se,
        body2: bar,
        anchor2: Vec3i { x: 0, y: LINK_ANCHOR_Y_MM, z: LINK_ANCHOR_Z_MM },
        limits: Some(LengthLimits { min_mm: LINK_MIN_MM, max_mm: LINK_MAX_MM }),
        rest_mm: 0,
        compliance_micro: 0,
        linear_damping: 0,
    }
}

/// The link that holds a loaded ball a ball's diameter from the release end.
pub open spec fn spec_carry_link(se: u64, ball: u64) -> Link {
    Link {
        body1: se,
        body2: ball,
        anchor2: Vec3i { x: 0, y: 0, z: 0 },
        limits: None,
        rest_mm: (2 * BALL_RADIUS_MM) as i32,
        compliance_micro: CARRY_COMPLIANCE_MICRO,
        linear_damping: CARRY_DAMPING,
    }
}

/// One tick of tightening: while the upper limit is above the floor it comes down by a
/// step, with the lower limit at the slack length; from the floor on, the limits stay and
/// the anchor moves in by a step along Z (as far as an `i32` reaches).
pub open spec fn spec_tighten(l: Link) -> Link {
    let lim = l.limits.unwrap();
    if lim.max_mm > WINCH_FLOOR_MM {
        Link {
            limits: Some(LengthLimits { min_mm: LINK_SLACK_MM, max_mm: (lim.max_mm - WINCH_STEP_MM) as i32 }),
            rest_mm: 0,
            compliance_micro: 0,
            linear_damping: 0,
            ..l
        }
    } else {
        Link {
            anchor2: Vec3i {
                z: if l.anchor2.z >= i32::MIN + WINCH_STEP_MM {
                    (l.anchor2.z - WINCH_STEP_MM) as i32
                } else {
                    l.anchor2.z
                },
                ..l.anchor2
            },
            rest_mm: 0,
            compliance_micro: 0,
            linear_damping: 0,
            ..l
        }
    }
}

/// Height of the arm's long end, in micrometres: its centre less half its length along
/// its forward direction.
pub open spec fn arm_end_height_um(arm_pos: Vec3i, arm_fwd: Dir3i) -> int {
    arm_pos.y * 1000 - arm_fwd.y * ARM_HALF_LEN_MM
}

pub open spec fn spec_arm_cocked(arm_pos: Vec3i, arm_fwd: Dir3i) -> bool {
    arm_end_height_um(arm_pos, arm_fwd) < ARM_COCKED_HEIGHT_MM * 1000
}

/// The reference point that the sling's release is judged from.
pub open spec fn release_ref(position: Vec3i) -> V3 {
    (position.x as int, position.y + RELEASE_REF_HEIGHT_MM, position.z as int)
}

/// The release end has swung close enough to straight above the reference point.
pub open spec fn spec_unhooked(position: Vec3i, se_pos: Vec3i) -> bool {
    let v = diff(se_pos.v(), release_ref(position));
    cos_above(v.1, norm_sq(v), 1, UNHOOK_COS_NUM as int, UNHOOK_COS_DEN as int)
}

/// The ball that a launcher at `position` asks for when it starts arming.
pub open spec fn spec_ball_request(position: Vec3i) -> ProjectleSpawn {
    ProjectleSpawn {
        key: ProjectleKey::Ball,
        pos: Vec3i { x: position.x, y: LOADER_HEIGHT_MM, z: (position.z - LOADER_BACK_MM) as i32 },
        dir: None,
        impulse: None,
        lifetime: None,
    }
}

/// One trebuchet and its launch cycle.
#[derive(Clone, Copy, Debug, PartialEq, Eq)]
pub struct Trebuchet {
    pub parts: Parts,
    /// Position of the launcher's base, which does not move.
    pub position: Vec3i,
    pub state: LaunchState,
    /// The reload countdown, running while idle.
    pub reload: Option<Timer>,
    /// The one link joint, while there is one.
    pub link: Option<Link>,
}

impl Trebuchet {
    /// The rig is built; idle launchers count down and hold no link; tensioning and
    /// arming launchers hold the tension link from the release end to the bar; a loose
    /// launcher holds a link from its release end.
    pub open spec fn wf(self) -> bool {
        &&& self.parts.spec_built()
        &&& self.position.z >= i32::MIN + LOADER_BACK_MM
        &&& match self.state {
            LaunchState::Idle => self.reload is Some && self.link is None,
            LaunchState::Tension | LaunchState::Arming => {
                &&& self.reload is None
                &&& self.link is Some
                &&& self.link.unwrap().body1 == self.parts.se.unwrap()
                &&& self.link.unwrap().body2 == self.parts.bar.unwrap()
                &&& self.link.unwrap().limits is Some
            },
            LaunchState::Loose => {
                &&& self.reload is None
                &&& self.link is Some
                &&& self.link.unwrap().body1 == self.parts.se.unwrap()
            },
        }
    }

    pub open spec fn spec_start(parts: Parts, position: Vec3i, reload_secs: u64) -> Trebuchet {
        Trebuchet {
            parts,
            position,
            state: LaunchState::Idle,
            reload: Some(Timer::spec_new(secs_to_ms(reload_secs))),
            link: None,
        }
    }

    pub open spec fn spec_reload(self, delta_ms: u64) -> Trebuchet {
        match (self.state, self.reload) {
            (LaunchState::Idle, Some(t)) => {
                let t2 = t.spec_tick(delta_ms);
                if t2.finished {
                    Trebuchet {
                        state: LaunchState::Tension,
                        reload: None,
                        link: Some(spec_tension_link(self.parts.se.unwrap(), self.parts.bar.unwrap())),
                        ..self
                    }
                } else {
                    Trebuchet { reload: Some(t2), ..self }
                }
            },
            _ => self,
        }
    }

    pub open spec fn spec_do_tension(self, arm_pos: Vec3i, arm_fwd: Dir3i) -> Trebuchet {
        if self.state != LaunchState::Tension {
            self
        } else if spec_arm_cocked(arm_pos, arm_fwd) {
            Trebuchet { state: LaunchState::Arming, ..self }
        } else {
            Trebuchet { link: Some(spec_tighten(self.link.unwrap())), ..self }
        }
    }

    /// The collision of `a` and `b` hooks a ball: one of them is this launcher's release
    /// end and the other an unreleased ball, while arming.
    pub open spec fn hooks(self, a: u64, b: u64, a_ball: bool, b_ball: bool) -> bool {
        let se = self.parts.se.unwrap();
        self.state == LaunchState::Arming && ((a == se && b_ball) || (b == se && a_ball))
    }

    pub open spec fn hooked_ball(self, a: u64, b: u64) -> u64 {
        if a == self.parts.se.unwrap() { b } else { a }
    }

    pub open spec fn spec_do_arming(self, a: u64, b: u64, a_ball: bool, b_ball: bool) -> Trebuchet {
        if self.hooks(a, b, a_ball, b_ball) {
            Trebuchet {
                state: LaunchState::Loose,
                link: Some(spec_carry_link(self.parts.se.unwrap(), self.hooked_ball(a, b))),
                ..self
            }
        } else {
            self
        }
    }

    pub open spec fn releases(self, se_pos: Vec3i) -> bool {
        self.state == LaunchState::Loose && spec_unhooked(self.position, se_pos)
    }

    pub open spec fn spec_do_loose(self, se_pos: Vec3i, reload_secs: u64) -> Trebuchet {
        if self.releases(se_pos) {
            Trebuchet {
                state: LaunchState::Idle,
                reload: Some(Timer::spec_new(secs_to_ms(reload_secs))),
                link: None,
                ..self
            }
        } else {
            self
        }
    }

    /// Puts a built launcher into play: idle, with a reload countdown of `reload_secs`.
    pub fn start_game(parts: Parts, position: Vec3i, reload_secs: u64) -> (r: Trebuchet)
        requires
            parts.spec_built(),
            position.z >= i32::MIN + LOADER_BACK_MM,
        ensures
            r == Trebuchet::spec_start(parts, position, reload_secs),
            r.wf(),
    {
        Trebuchet {
            parts,
            position,
            state: LaunchState::Idle,
            reload: Some(Timer::from_secs(reload_secs)),
            link: None,
        }
    }

    /// Entering Idle: the link is gone and a reload countdown of `reload_secs` starts.
    fn enter_idle(&mut self, reload_secs: u64)
        ensures
            *final(self) == (Trebuchet {
                state: LaunchState::Idle,
                reload: Some(Timer::spec_new(secs_to_ms(reload_secs))),
                link: None,
                ..*old(self)
            }),
    {
        self.state = LaunchState::Idle;
        self.reload = Some(Timer::from_secs(reload_secs));
        self.link = None;
    }

    /// Entering Tension: the tension link from the release end to the anchor bar.
    fn enter_tension(&mut self)
        requires
            old(self).parts.spec_built(),
        ensures
            *final(self) == (Trebuchet {
                state: LaunchState::Tension,
                reload: None,
                link: Some(spec_tension_link(old(self).parts.se.unwrap(), old(self).parts.bar.unwrap())),
                ..*old(self)
            }),
    {
        let se = self.parts.se.unwrap();
        let bar = self.parts.bar.unwrap();
        self.state = LaunchState::Tension;
        self.reload = None;
        self.link = Some(
            Link {
                body1: se,
                body2: bar,
                anchor2: Vec3i { x: 0, y: LINK_ANCHOR_Y_MM, z: LINK_ANCHOR_Z_MM },
                limits: Some(LengthLimits { min_mm: LINK_MIN_MM, max_mm: LINK_MAX_MM }),
                rest_mm: 0,
                compliance_micro: 0,
                linear_damping: 0,
            },
        );
    }

    /// The ball that arming asks for, at the loader behind the launcher.
    pub fn enter_arming(&self) -> (r: ProjectleSpawn)
        requires
            self.position.z >= i32::MIN + LOADER_BACK_MM,
        ensures
            r == spec_ball_request(self.position),
    {
        ProjectleSpawn {
            key: ProjectleKey::Ball,
            pos: Vec3i { x: self.position.x, y: LOADER_HEIGHT_MM, z: self.position.z - LOADER_BACK_MM },
            dir: None,
            impulse: None,
            lifetime: None,
        }
    }

    /// Advances an idle launcher's reload countdown by `delta_ms`; when it runs out the
    /// launcher enters Tension. Returns whether it did.
    pub fn reload(&mut self, delta_ms: u64) -> (r: bool)
        requires
            old(self).wf(),
        ensures
            *final(self) == old(self).spec_reload(delta_ms),
            r == (old(self).state == LaunchState::Idle && final(self).state == LaunchState::Tension),
    {
        match self.state {
            LaunchState::Idle => {},
            _ => return false,
        }
        let mut t = self.reload.unwrap();
        t.tick(delta_ms);
        if t.is_finished() {
            self.enter_tension();
            true
        } else {
            self.reload = Some(t);
            false
        }
    }

    /// One tick of Tension, given the arm's pose: once the arm's long end is low enough
    /// the launcher enters Arming and asks for a ball; until then the link is tightened.
    pub fn do_tension(&mut self, arm_pos: Vec3i, arm_fwd: Dir3i) -> (r: Option<ProjectleSpawn>)
        requires
            old(self).wf(),
            arm_fwd.wf(),
        ensures
            *final(self) == old(self).spec_do_tension(arm_pos, arm_fwd),
            r == (if old(self).state == LaunchState::Tension && final(self).state == LaunchState::Arming {
                Some(spec_ball_request(old(self).position))
            } else {
                None
            }),
    {
        match self.state {
            LaunchState::Tension => {},
            _ => return None,
        }
        let height: i64 = arm_pos.y as i64 * 1000 - arm_fwd.y as i64 * ARM_HALF_LEN_MM as i64;
        if height < ARM_COCKED_HEIGHT_MM as i64 * 1000 {
            self.state = LaunchState::Arming;
            return Some(self.enter_arming());
        }
        let l = self.link.unwrap();
        let lim = l.limits.unwrap();
        let next = if lim.max_mm > WINCH_FLOOR_MM {
            Link {
                limits: Some(LengthLimits { min_mm: LINK_SLACK_MM, max_mm: lim.max_mm - WINCH_STEP_MM }),
                rest_mm: 0,
                compliance_micro: 0,
                linear_damping: 0,
                ..l
            }
        } else {
            let z = if l.anchor2.z >= i32::MIN + WINCH_STEP_MM {
                l.anchor2.z - WINCH_STEP_MM
            } else {
                l.anchor2.z
            };
            Link {
                anchor2: Vec3i { x: l.anchor2.x, y: l.anchor2.y, z },
                rest_mm: 0,
                compliance_micro: 0,
                linear_damping: 0,
                ..l
            }
        };
        self.link = Some(next);
        None
    }

    /// Handles the end of a collision between `a` and `b`: if it hooks an unreleased ball
    /// on this launcher's release end while arming, the link now carries that ball and the
    /// launcher is Loose. Returns the ball, whose velocity the world resets.
    pub fn do_arming(&mut self, a: u64, b: u64, projectiles: &Projectiles) -> (r: Option<u64>)
        requires
            old(self).wf(),
        ensures
            *final(self) == old(self).spec_do_arming(
                a,
                b,
                spec_unreleased_ball(projectiles.items@, a),
                spec_unreleased_ball(projectiles.items@, b),
            ),
            r == (if old(self).hooks(
                a,
                b,
                spec_unreleased_ball(projectiles.items@, a),
                spec_unreleased_ball(projectiles.items@, b),
            ) {
                Some(old(self).hooked_ball(a, b))
            } else {
                None
            }),
    {
        match self.state {
            LaunchState::Arming => {},
            _ => return None,
        }
        let se = self.parts.se.unwrap();
        let hooked = (a == se && projectiles.is_unreleased_ball(b)) || (b == se
            && projectiles.is_unreleased_ball(a));
        if !hooked {
            return None;
        }
        let ball = if a == se { b } else { a };
        self.state = LaunchState::Loose;
        self.link = Some(
            Link {
                body1: se,
                body2: ball,
                anchor2: Vec3i { x: 0, y: 0, z: 0 },
                limits: None,
                rest_mm: 2 * BALL_RADIUS_MM,
                compliance_micro: CARRY_COMPLIANCE_MICRO,
                linear_damping: CARRY_DAMPING,
            },
        );
        Some(ball)
    }

    /// Whether the release end at `se_pos` has swung up to the unhooking point.
    pub fn unhooked(&self, se_pos: Vec3i) -> (r: bool)
        ensures
            r == spec_unhooked(self.position, se_pos),
    {
        let vx: i128 = se_pos.x as i128 - self.position.x as i128;
        let vy: i128 = se_pos.y as i128 - (self.position.y as i128 + RELEASE_REF_HEIGHT_MM as i128);
        let vz: i128 = se_pos.z as i128 - self.position.z as i128;
        proof {
            lemma_square_bound(vx as int, 0x4_0000_0000);
            lemma_square_bound(vy as int, 0x4_0000_0000);
            lemma_square_bound(vz as int, 0x4_0000_0000);
        }
        let n2: i128 = vx * vx + vy * vy + vz * vz;
        exceeds_cos(vy, n2, 1, UNHOOK_COS_NUM, UNHOOK_COS_DEN)
    }

    /// One tick of Loose, given where the release end is: once it has swung up to the
    /// unhooking point, the link is dropped, the launcher goes back to Idle with a reload
    /// countdown of `reload_secs`, and the carried ball is to be released with
    /// `lifetime_secs` to live. Returns that ball and lifetime.
    pub fn do_loose(&mut self, se_pos: Vec3i, lifetime_secs: u64, reload_secs: u64) -> (r: Option<(u64, u64)>)
        requires
            old(self).wf(),
        ensures
            *final(self) == old(self).spec_do_loose(se_pos, reload_secs),
            r == (if old(self).releases(se_pos) {
                Some((old(self).link.unwrap().body2, lifetime_secs))
            } else {
                None
            }),
    {
        match self.state {
            LaunchState::Loose => {},
            _ => return None,
        }
        if !self.unhooked(se_pos) {
            return None;
        }
        let ball = self.link.unwrap().body2;
        self.enter_idle(reload_secs);
        Some((ball, lifetime_secs))
    }
}

/// What one tick of a launcher asks of the world.
#[derive(Clone, Copy, Debug, PartialEq, Eq)]
pub enum LaunchAction {
    Nothing,
    /// Arming began: spawn this ball at the loader.
    SpawnBall(ProjectleSpawn),
    /// A ball was hooked: stop it, it now hangs from the sling.
    HoldBall(u64),
    /// The sling unhooked: release this ball as a target with this many seconds to live.
    Release(u64, u64),
}

/// What the world observed of one launcher during a tick, and the draws it may need.
#[derive(Clone, Copy, Debug, PartialEq, Eq)]
pub struct Observation {
    pub delta_ms: u64,
    /// The arm's position and forward direction, where the arm could be found.
    pub arm: Option<(Vec3i, Dir3i)>,
    /// Where the sling's release end is, where it could be found.
    pub release_end: Option<Vec3i>,
    /// Lifetime for a ball released this tick, in seconds.
    pub lifetime_secs: u64,
    /// Reload delay for an Idle entered this tick, in seconds.
    pub reload_secs: u64,
}

impl Observation {
    pub open spec fn wf(self) -> bool {
        self.arm is Some ==> self.arm.unwrap().1.wf()
    }
}

/// The launcher after handling, in order, the collisions that ended this tick.
pub open spec fn spec_arming_fold(l: Trebuchet, cs: Seq<(u64, u64)>, ps: Seq<Projectile>) -> Trebuchet
    decreases cs.len(),
{
    if cs.len() == 0 {
        l
    } else {
        let prev = spec_arming_fold(l, cs.drop_last(), ps);
        let c = cs.last();
        prev.spec_do_arming(c.0, c.1, spec_unreleased_ball(ps, c.0), spec_unreleased_ball(ps, c.1))
    }
}

impl Trebuchet {
    /// One tick: only the current state's step runs. A launcher whose arm or release end
    /// could not be found skips the tick.
    pub open spec fn spec_tick(self, obs: Observation, cs: Seq<(u64, u64)>, ps: Seq<Projectile>) -> Trebuchet {
        match self.state {
            LaunchState::Idle => self.spec_reload(obs.delta_ms),
            LaunchState::Tension => match obs.arm {
                Some(a) => self.spec_do_tension(a.0, a.1),
                None => self,
            },
            LaunchState::Arming => spec_arming_fold(self, cs, ps),
            LaunchState::Loose => match obs.release_end {
                Some(p) => self.spec_do_loose(p, obs.reload_secs),
                None => self,
            },
        }
    }

    /// The action that goes with moving from `self` to `next` in one tick.
    pub open spec fn spec_action(self, next: Trebuchet, obs: Observation) -> LaunchAction {
        if self.state == LaunchState::Tension && next.state == LaunchState::Arming {
            LaunchAction::SpawnBall(spec_ball_request(self.position))
        } else if self.state == LaunchState::Arming && next.state == LaunchState::Loose {
            LaunchAction::HoldBall(next.link.unwrap().body2)
        } else if self.state == LaunchState::Loose && next.state == LaunchState::Idle {
            LaunchAction::Release(self.link.unwrap().body2, obs.lifetime_secs)
        } else {
            LaunchAction::Nothing
        }
    }

    /// Runs one tick of the launch cycle on what the world observed, and the collisions
    /// that ended during the tick; returns what the world must do. It moves the launcher
    /// at most one step along the cycle.
    pub fn tick(&mut self, obs: &Observation, collisions: &Vec<(u64, u64)>, projectiles: &Projectiles) -> (r: LaunchAction)
        requires
            old(self).wf(),
            obs.wf(),
        ensures
            *final(self) == old(self).spec_tick(*obs, collisions@, projectiles.items@),
            r == old(self).spec_action(*final(self), *obs),
            final(self).wf(),
            cycle_step(old(self).state, final(self).state),
    {
        match self.state {
            LaunchState::Idle => {
                self.reload(obs.delta_ms);
                LaunchAction::Nothing
            },
            LaunchState::Tension => match obs.arm {
                Some((p, f)) => match self.do_tension(p, f) {
                    Some(req) => LaunchAction::SpawnBall(req),
                    None => LaunchAction::Nothing,
                },
                None => LaunchAction::Nothing,
            },
            LaunchState::Arming => {
                let ghost start = *self;
                let mut i: usize = 0;
                let mut held: Option<u64> = None;
                while i < collisions.len()
                    invariant
                        start.wf(),
                        start.state == LaunchState::Arming,
                        0 <= i <= collisions@.len(),
                        *self == spec_arming_fold(start, collisions@.take(i as int), projectiles.items@),
                        self.wf(),
                        self.state == LaunchState::Arming || self.state == LaunchState::Loose,
                        self.state == LaunchState::Arming ==> held is None,
                        self.state == LaunchState::Loose ==> held == Some(self.link.unwrap().body2),
                    decreases collisions@.len() - i,
                {
                    proof {
                        assert(collisions@.take(i as int + 1).drop_last() =~= collisions@.take(i as int));
                    }
                    let (a, b) = collisions[i];
                    match self.do_arming(a, b, projectiles) {
                        Some(ball) => {
                            held = Some(ball);
                        },
                        None => {},
                    }
                    i = i + 1;
                }
                assert(collisions@.take(collisions@.len() as int) =~= collisions@);
                match held {
                    Some(ball) => LaunchAction::HoldBall(ball),
                    None => LaunchAction::Nothing,
                }
            },
            LaunchState::Loose => match obs.release_end {
                Some(p) => match self.do_loose(p, obs.lifetime_secs, obs.reload_secs) {
                    Some((ball, lifetime)) => LaunchAction::Release(ball, lifetime),
                    None => LaunchAction::Nothing,
                },
                None => LaunchAction::Nothing,
            },
        }
    }
}

/// Number of launchers on the field.
pub const LAUNCHER_COUNT: usize = 11;
/// Launchers stand at this height and distance from the field's origin.
pub const LAUNCHER_Y_MM: i32 = 100;
pub const LAUNCHER_Z_MM: i32 = 40000;

/// Sideways position of launcher `i`, in world units: the row alternates from the middle
/// outward, 10 units apart (0, -10, 10, -20, 20, ...).
pub open spec fn launcher_x_units(i: int) -> int {
    if i % 2 == 0 {
        5 * i
    } else {
        -5 * (i + 1)
    }
}

/// Where the launchers of the field stand.
pub fn launcher_positions() -> (r: Vec<Vec3i>)
    ensures
        r@.len() == LAUNCHER_COUNT,
        forall|i: int|
            0 <= i < LAUNCHER_COUNT ==> r@[i] == (Vec3i {
                x: (launcher_x_units(i) * 1000) as i32,
                y: LAUNCHER_Y_MM,
                z: LAUNCHER_Z_MM,
            }),
{
    let mut out: Vec<Vec3i> = Vec::new();
    let mut x: i32 = 0;
    let mut i: usize = 0;
    while i < LAUNCHER_COUNT
        invariant
            0 <= i <= LAUNCHER_COUNT,
            out@.len() == i,
            i > 0 ==> x == launcher_x_units(i - 1) * 1000,
            i == 0 ==> x == 0,
            forall|j: int|
                0 <= j < i ==> out@[j] == (Vec3i {
                    x: (launcher_x_units(j) * 1000) as i32,
                    y: LAUNCHER_Y_MM,
                    z: LAUNCHER_Z_MM,
                }),
        decreases LAUNCHER_COUNT - i,
    {
        let step: i32 = 10000 * i as i32;
        if i % 2 == 0 {
            x = x + step;
        } else {
            x = x - step;
        }
        out.push(Vec3i { x, y: LAUNCHER_Y_MM, z: LAUNCHER_Z_MM });
        i = i + 1;
    }
    out
}

/// Handling a tick's collisions while arming leaves a well-formed launcher either still
/// arming and unchanged, or loose.
pub proof fn lemma_arming_fold(l: Trebuchet, cs: Seq<(u64, u64)>, ps: Seq<Projectile>)
    requires
        l.wf(),
        l.state == LaunchState::Arming,
    ensures
        spec_arming_fold(l, cs, ps).wf(),
        spec_arming_fold(l, cs, ps).state == LaunchState::Arming ==> spec_arming_fold(l, cs, ps) == l,
        spec_arming_fold(l, cs, ps).state == LaunchState::Arming || spec_arming_fold(l, cs, ps).state
            == LaunchState::Loose,
    decreases cs.len(),
{
    if cs.len() > 0 {
        lemma_arming_fold(l, cs.drop_last(), ps);
    }
}

/// A tick moves a launcher at most one step along the cycle Idle, Tension, Arming, Loose,
/// Idle, whatever it observed, and keeps it well formed; so the states that a launcher
/// shows tick after tick never skip a state nor make two moves in one tick.
pub proof fn lemma_tick_cycle(l: Trebuchet, obs: Observation, cs: Seq<(u64, u64)>, ps: Seq<Projectile>)
    requires
        l.wf(),
        obs.wf(),
    ensures
        cycle_step(l.state, l.spec_tick(obs, cs, ps).state),
        l.spec_tick(obs, cs, ps).wf(),
{
    if l.state == LaunchState::Arming {
        lemma_arming_fold(l, cs, ps);
    }
}

/// What one tick hands a launcher: its observation, the collisions that ended, and the
/// live projectiles.
pub type TickInput = (Observation, Seq<(u64, u64)>, Seq<Projectile>);

/// The launcher's successive values over a run of ticks, starting from `l` itself.
pub open spec fn spec_run(l: Trebuchet, ticks: Seq<TickInput>) -> Seq<Trebuchet>
    decreases ticks.len(),
{
    if ticks.len() == 0 {
        seq![l]
    } else {
        let prev = spec_run(l, ticks.drop_last());
        let t = ticks.last();
        prev.push(prev.last().spec_tick(t.0, t.1, t.2))
    }
}

/// Over any run of ticks, the states that a launcher shows form a walk along the cycle
/// Idle, Tension, Arming, Loose, Idle: from one tick to the next the state stays or takes
/// the next step, and the launcher stays well formed throughout.
pub proof fn lemma_run_follows_cycle(l: Trebuchet, ticks: Seq<TickInput>)
    requires
        l.wf(),
        forall|i: int| 0 <= i < ticks.len() ==> (#[trigger] ticks[i]).0.wf(),
    ensures
        spec_run(l, ticks).len() == ticks.len() + 1,
        spec_run(l, ticks)[0] == l,
        forall|i: int| 0 <= i < spec_run(l, ticks).len() ==> (#[trigger] spec_run(l, ticks)[i]).wf(),
        forall|i: int|
            0 <= i < ticks.len() ==> cycle_step(
                (#[trigger] spec_run(l, ticks)[i]).state,
                spec_run(l, ticks)[i + 1].state,
            ),
    decreases ticks.len(),
{
    if ticks.len() > 0 {
        let d = ticks.drop_last();
        assert forall|i: int| 0 <= i < d.len() implies (#[trigger] d[i]).0.wf() by {
            assert(d[i] == ticks[i]);
        }
        lemma_run_follows_cycle(l, d);
        let prev = spec_run(l, d);
        let t = ticks.last();
        assert(t.0.wf());
        lemma_tick_cycle(prev.last(), t.0, t.1, t.2);
        let run = spec_run(l, ticks);
        assert(run == prev.push(prev.last().spec_tick(t.0, t.1, t.2)));
        assert forall|i: int| 0 <= i < run.len() implies (#[trigger] run[i]).wf() by {
            if i < prev.len() {
                assert(run[i] == prev[i]);
            }
        }
        assert forall|i: int| 0 <= i < ticks.len() implies cycle_step((#[trigger] run[i]).state, run[i + 1].state) by {
            if i < d.len() {
                assert(run[i] == prev[i]);
                assert(run[i + 1] == prev[i + 1]);
            } else {
                assert(run[i] == prev.last());
            }
        }
    }
}

/// Whatever a launcher observes, each of its steps leaves its state where it was or moves
/// it to the next state of the cycle Idle, Tension, Arming, Loose, Idle: none skips a
/// state, and none makes two moves at once.
pub proof fn lemma_launch_cycle(
    l: Trebuchet,
    delta_ms: u64,
    arm_pos: Vec3i,
    arm_fwd: Dir3i,
    a: u64,
    b: u64,
    a_ball: bool,
    b_ball: bool,
    se_pos: Vec3i,
    reload_secs: u64,
)
    ensures
        cycle_step(l.state, l.spec_reload(delta_ms).state),
        cycle_step(l.state, l.spec_do_tension(arm_pos, arm_fwd).state),
        cycle_step(l.state, l.spec_do_arming(a, b, a_ball, b_ball).state),
        cycle_step(l.state, l.spec_do_loose(se_pos, reload_secs).state),
{
}

/// Every step keeps a launcher well formed, so at all times it holds at most one link,
/// none while idle, and one while in Tension, Arming or Loose.
pub proof fn lemma_link_invariant(
    l: Trebuchet,
    delta_ms: u64,
    arm_pos: Vec3i,
    arm_fwd: Dir3i,
    a: u64,
    b: u64,
    a_ball: bool,
    b_ball: bool,
    se_pos: Vec3i,
    reload_secs: u64,
)
    requires
        l.wf(),
    ensures
        l.spec_reload(delta_ms).wf(),
        l.spec_do_tension(arm_pos, arm_fwd).wf(),
        l.spec_do_arming(a, b, a_ball, b_ball).wf(),
        l.spec_do_loose(se_pos, reload_secs).wf(),
        l.state == LaunchState::Idle ==> l.link is None,
        l.state != LaunchState::Idle ==> l.link is Some,
{
}

} // verus!
