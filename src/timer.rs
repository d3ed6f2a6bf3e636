//! A one-shot countdown, driven by elapsed time.
use vstd::prelude::*;

verus! {

/// Whole seconds in milliseconds, saturating at the largest `u64`.
pub open spec fn secs_to_ms(secs: u64) -> u64 {
    if secs <= u64::MAX / 1000 {
        (secs * 1000) as u64
    } else {
        u64::MAX
    }
}

/// A one-shot countdown measured in milliseconds.
///
/// `tick` advances it; once the elapsed time reaches the duration it is finished and
/// stays finished. Changing the duration does not finish it by itself: that is only
/// observed at the next `tick`.
#[derive(Clone, Copy, Debug, PartialEq, Eq, Structural)]
pub struct Timer {
    pub duration_ms: u64,
    pub elapsed_ms: u64,
    pub finished: bool,
}

impl Timer {
    /// A finished countdown has its elapsed time pinned to its duration.
    pub open spec fn wf(self) -> bool {
        self.finished ==> self.elapsed_ms == self.duration_ms
    }

    pub open spec fn spec_new(duration_ms: u64) -> Timer {
        Timer { duration_ms, elapsed_ms: 0, finished: false }
    }

    /// The state after `delta_ms` more milliseconds.
    pub open spec fn spec_tick(self, delta_ms: u64) -> Timer {
        if self.finished {
            self
        } else if self.elapsed_ms as int + delta_ms as int >= self.duration_ms as int {
            Timer { duration_ms: self.duration_ms, elapsed_ms: self.duration_ms, finished: true }
        } else {
            Timer {
                duration_ms: self.duration_ms,
                elapsed_ms: (self.elapsed_ms + delta_ms) as u64,
                finished: false,
            }
        }
    }

    pub fn new(duration_ms: u64) -> (r: Timer)
        ensures
            r == Timer::spec_new(duration_ms),
            r.wf(),
    {
        Timer { duration_ms, elapsed_ms: 0, finished: false }
    }

    /// A countdown of whole seconds.
    pub fn from_secs(secs: u64) -> (r: Timer)
        ensures
            r == Timer::spec_new(secs_to_ms(secs)),
            r.wf(),
    {
        let ms: u64 = if secs <= u64::MAX / 1000 { secs * 1000 } else { u64::MAX };
        Timer::new(ms)
    }

    pub fn tick(&mut self, delta_ms: u64)
        ensures
            *final(self) == old(self).spec_tick(delta_ms),
            old(self).wf() ==> final(self).wf(),
            final(self).finished == (old(self).finished || old(self).elapsed_ms as int + delta_ms as int
                >= old(self).duration_ms as int),
    {
        if self.finished {
            return;
        }
        if delta_ms >= self.duration_ms || self.elapsed_ms >= self.duration_ms - delta_ms {
            self.elapsed_ms = self.duration_ms;
            self.finished = true;
        } else {
            self.elapsed_ms = self.elapsed_ms + delta_ms;
        }
    }

    /// Replaces the duration; whether the countdown is finished is left as it was.
    pub fn set_duration(&mut self, duration_ms: u64)
        ensures
            *final(self) == (Timer { duration_ms, ..*old(self) }),
    {
        self.duration_ms = duration_ms;
    }

    pub fn is_finished(&self) -> (r: bool)
        ensures
            r == self.finished,
    {
        self.finished
    }
}

} // verus!
