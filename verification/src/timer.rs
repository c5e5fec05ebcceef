use vstd::prelude::*;

verus! {

/// Addition on microsecond counts that stops at the largest representable
/// value instead of wrapping.
pub open spec fn sat_add(a: u64, b: u64) -> u64 {
    if a + b > u64::MAX {
        u64::MAX
    } else {
        (a + b) as u64
    }
}

/// Whether a timer stops at its duration or wraps around and completes again.
#[derive(Clone, Copy, Debug, PartialEq, Eq, Structural)]
pub enum TimerMode {
    Once,
    Repeating,
}

/// A countdown clock advanced by elapsed time, measured in integer
/// microseconds. It exposes "just completed this tick" and "completed at
/// least once" signals.
///
/// A `Once` timer accumulates elapsed time up to its duration and stays
/// there. A `Repeating` timer wraps its elapsed time modulo its duration; a
/// repeating timer with duration zero completes on every tick. Elapsed time
/// beyond what a `u64` can count saturates.
#[derive(Clone, Copy, Debug, PartialEq, Eq, Structural)]
pub struct FlickerTimer {
    pub mode: TimerMode,
    pub duration: u64,
    pub elapsed: u64,
    pub just_finished: bool,
}

impl FlickerTimer {
    /// Internal consistency: the elapsed time never passes the duration.
    pub open spec fn wf(self) -> bool {
        match self.mode {
            TimerMode::Once => self.elapsed <= self.duration,
            TimerMode::Repeating => {
                if self.duration == 0 {
                    self.elapsed == 0
                } else {
                    self.elapsed < self.duration
                }
            }
        }
    }

    /// The timer has completed at least once. Meaningful for `Once` timers;
    /// a repeating timer reports completion through `just_finished`.
    pub open spec fn spec_finished(self) -> bool {
        self.elapsed >= self.duration
    }

    /// The state after advancing by `delta` microseconds.
    pub open spec fn spec_tick(self, delta: u64) -> FlickerTimer {
        match self.mode {
            TimerMode::Once => {
                if self.elapsed + delta >= self.duration {
                    FlickerTimer {
                        mode: self.mode,
                        duration: self.duration,
                        elapsed: self.duration,
                        just_finished: self.elapsed < self.duration,
                    }
                } else {
                    FlickerTimer {
                        mode: self.mode,
                        duration: self.duration,
                        elapsed: (self.elapsed + delta) as u64,
                        just_finished: false,
                    }
                }
            }
            TimerMode::Repeating => {
                if self.duration == 0 {
                    FlickerTimer {
                        mode: self.mode,
                        duration: self.duration,
                        elapsed: 0,
                        just_finished: true,
                    }
                } else {
                    let total = sat_add(self.elapsed, delta);
                    FlickerTimer {
                        mode: self.mode,
                        duration: self.duration,
                        elapsed: (total as int % self.duration as int) as u64,
                        just_finished: total >= self.duration,
                    }
                }
            }
        }
    }

    pub fn new(duration: u64, mode: TimerMode) -> (r: FlickerTimer)
        ensures
            r == (FlickerTimer { mode, duration, elapsed: 0, just_finished: false }),
            r.wf(),
    {
        FlickerTimer { mode, duration, elapsed: 0, just_finished: false }
    }

    /// Advance the clock by `delta` microseconds.
    pub fn tick(&mut self, delta: u64)
        requires
            old(self).wf(),
        ensures
            *final(self) == old(self).spec_tick(delta),
            final(self).wf(),
    {
        match self.mode {
            TimerMode::Once => {
                let remaining = self.duration - self.elapsed;
                if delta >= remaining {
                    self.just_finished = self.elapsed < self.duration;
                    self.elapsed = self.duration;
                } else {
                    self.elapsed = self.elapsed + delta;
                    self.just_finished = false;
                }
            }
            TimerMode::Repeating => {
                if self.duration == 0 {
                    self.elapsed = 0;
                    self.just_finished = true;
                } else {
                    let total = if delta > u64::MAX - self.elapsed {
                        u64::MAX
                    } else {
                        self.elapsed + delta
                    };
                    self.just_finished = total >= self.duration;
                    self.elapsed = total % self.duration;
                }
            }
        }
    }

    /// The timer has completed at least once.
    pub fn finished(&self) -> (r: bool)
        ensures
            r == self.spec_finished(),
    {
        self.elapsed >= self.duration
    }

    /// The timer completed during the most recent tick.
    pub fn just_finished(&self) -> (r: bool)
        ensures
            r == self.just_finished,
    {
        self.just_finished
    }
}

} // verus!
