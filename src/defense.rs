//! The sensor-to-actuator chain as one store: the target registry and the firing units.
use vstd::prelude::*;
use crate::radar::{spec_remove, RadarTargets};
use crate::turret::{spec_drop_target, Battery};

verus! {

/// What the defence knows: which targets are tracked, and which barrel holds which.
pub struct Defense {
    pub registry: RadarTargets,
    pub battery: Battery,
}

impl Defense {
    pub open spec fn wf(&self) -> bool {
        self.registry.wf()
    }

    pub fn new() -> (r: Defense)
        ensures
            r.wf(),
            r.registry@ == Seq::<u64>::empty(),
            r.battery.barrels@ == Seq::<crate::turret::Barrel>::empty(),
    {
        Defense { registry: RadarTargets::new(), battery: Battery::new() }
    }

    /// Target `h` is no longer eligible (destroyed or struck): it leaves the registry, and
    /// every barrel assigned to it drops it. Where it was not tracked, nothing changes.
    pub fn target_gone(&mut self, h: u64)
        requires
            old(self).wf(),
        ensures
            final(self).wf(),
            final(self).registry@ == spec_remove(old(self).registry@, h),
            final(self).battery.barrels@ == spec_drop_target(old(self).battery.barrels@, h),
    {
        self.registry.targetable_despawn(h);
        self.battery.ball_despawn(h);
    }
}

} // verus!
