use vstd::prelude::*;

use crate::color::Rgba;
use crate::events::FlickerStartEvent;
use crate::timer::{sat_add, FlickerTimer, TimerMode};

verus! {

/// The decay clock carried by an overlay visual: a one-shot countdown seeded
/// from the flicker request's duration. When it completes, the overlay is
/// destroyed and the target's flicker marker removed.
#[derive(Clone, Copy, Debug, PartialEq, Eq, Structural)]
pub struct Flickered(pub FlickerTimer);

impl Flickered {
    /// A one-shot countdown of `micros` microseconds.
    pub fn with_micros(micros: u64) -> (r: Self)
        ensures
            r == (Flickered(
                FlickerTimer { mode: TimerMode::Once, duration: micros, elapsed: 0, just_finished: false },
            )),
            r.0.wf(),
    {
        Flickered(FlickerTimer::new(micros, TimerMode::Once))
    }
}

impl Default for Flickered {
    /// A tenth of a second.
    fn default() -> (r: Self)
        ensures
            r == (Flickered(
                FlickerTimer {
                    mode: TimerMode::Once,
                    duration: 100_000,
                    elapsed: 0,
                    just_finished: false,
                },
            )),
    {
        Flickered::with_micros(100_000)
    }
}

/// An entity with this component will not react to flicker requests.
#[derive(Clone, Copy, Debug, PartialEq, Eq, Structural)]
pub struct NoFlicker;

/// Marks an entity which is actively being flickered. An extra marker is
/// needed since no components are added to the entity being flickered; its
/// presence is the sole source of truth for overlap detection.
#[derive(Clone, Copy, Debug, PartialEq, Eq, Structural)]
pub struct FlickerMarker;

/// Emits [`FlickerStartEvent`]s on an interval.
///
/// A pulse is a sequence of [`RepeatingFlicker::pulse_count`] flickers with a
/// delay between each in the pulse of [`RepeatingFlicker::time_between_flickers`].
/// Each pulse has a delay of [`RepeatingFlicker::time_between_pulses`]. When
/// [`RepeatingFlicker::count`] is set, after the set number of pulses occur,
/// the `RepeatingFlicker` is removed from the entity.
///
/// Exactly one of the two internal timers is live at a time, selected by
/// whether any flickers remain in the active pulse.
#[derive(Clone, Copy, Debug, PartialEq, Eq, Structural)]
pub struct RepeatingFlicker {
    /// Intra-pulse clock: time between the emissions within one pulse.
    pub timer: FlickerTimer,

    /// Inter-pulse clock: time between the end of one pulse and the start of
    /// the next.
    pub pulse_timer: FlickerTimer,

    /// Time in microseconds between each flicker.
    ///
    /// NOTE: This has no effect when `pulse_count < 2`, since the time
    /// between each pulse will end up being `time_between_pulses`.
    pub time_between_flickers: u64,

    /// Time in microseconds between each pulse.
    pub time_between_pulses: u64,

    /// See [`FlickerStartEvent`] for more information.
    pub flicker_time_length: u64,

    /// See [`FlickerStartEvent`] for more information.
    pub color: Rgba,

    /// Number of flickers per pulse.
    pub pulse_count: u32,

    /// The number of total pulses before expiring; unset means the schedule
    /// never expires on its own.
    pub count: Option<u32>,

    /// Flickers still owed in the active pulse; zero between pulses.
    pub curr_pulse_count: u32,
}

impl RepeatingFlicker {
    /// Internal consistency: both clocks repeat and are well formed, and a
    /// pulse budget, when set, is not yet spent.
    pub open spec fn wf(self) -> bool {
        &&& self.timer.wf()
        &&& self.pulse_timer.wf()
        &&& self.timer.mode is Repeating
        &&& self.pulse_timer.mode is Repeating
        &&& (self.count matches Some(c) ==> c >= 1)
    }

    pub fn builder() -> (r: RepeatingFlickerBuilder)
        ensures
            r == RepeatingFlickerBuilder::spec_default(),
    {
        RepeatingFlickerBuilder::new()
    }

    /// The request this schedule emits for its entity.
    pub open spec fn spec_generate_start_event(self, entity: u64) -> FlickerStartEvent {
        FlickerStartEvent { entity, micros: self.flicker_time_length, color: self.color }
    }

    pub fn generate_start_event(&self, entity: u64) -> (r: FlickerStartEvent)
        ensures
            r == self.spec_generate_start_event(entity),
    {
        FlickerStartEvent { entity, micros: self.flicker_time_length, color: self.color }
    }

    /// The schedule after one tick of `delta` microseconds, whether it emits
    /// a request this tick, and whether it has expired and must be removed
    /// from its entity.
    pub open spec fn spec_step(self, delta: u64) -> (RepeatingFlicker, bool, bool) {
        if self.curr_pulse_count > 0 {
            let timer2 = self.timer.spec_tick(delta);
            if timer2.just_finished {
                let stepped = RepeatingFlicker {
                    timer: timer2,
                    curr_pulse_count: (self.curr_pulse_count - 1) as u32,
                    ..self
                };
                if stepped.curr_pulse_count == 0 && self.count is Some {
                    let c = self.count->0;
                    (
                        RepeatingFlicker { count: Some((c - 1) as u32), ..stepped },
                        true,
                        c == 1,
                    )
                } else {
                    (stepped, true, false)
                }
            } else {
                (RepeatingFlicker { timer: timer2, ..self }, false, false)
            }
        } else {
            let pulse_timer2 = self.pulse_timer.spec_tick(delta);
            if pulse_timer2.just_finished {
                (
                    RepeatingFlicker {
                        pulse_timer: pulse_timer2,
                        curr_pulse_count: self.pulse_count,
                        ..self
                    },
                    false,
                    false,
                )
            } else {
                (RepeatingFlicker { pulse_timer: pulse_timer2, ..self }, false, false)
            }
        }
    }

    /// Advance the schedule by `delta` microseconds. Returns whether a
    /// request is emitted this tick and whether the schedule has expired.
    pub fn step(&mut self, delta: u64) -> (r: (bool, bool))
        requires
            old(self).wf(),
        ensures
            ({
                let (stepped, emit, remove) = old(self).spec_step(delta);
                *final(self) == stepped && r.0 == emit && r.1 == remove
            }),
            !r.1 ==> final(self).wf(),
    {
        if self.curr_pulse_count > 0 {
            self.timer.tick(delta);
            if self.timer.just_finished() {
                self.curr_pulse_count = self.curr_pulse_count - 1;
                if self.curr_pulse_count == 0 {
                    match self.count {
                        Some(c) => {
                            self.count = Some(c - 1);
                            (true, c == 1)
                        }
                        None => (true, false),
                    }
                } else {
                    (true, false)
                }
            } else {
                (false, false)
            }
        } else {
            self.pulse_timer.tick(delta);
            if self.pulse_timer.just_finished() {
                self.curr_pulse_count = self.pulse_count;
            }
            (false, false)
        }
    }

    /// Requests still owed before the schedule expires; meaningful only when
    /// a total pulse budget is set.
    pub open spec fn spec_emissions_left(self) -> int
        recommends
            self.count is Some,
    {
        if self.curr_pulse_count > 0 {
            self.curr_pulse_count + self.pulse_count * (self.count->0 - 1)
        } else {
            self.pulse_count * self.count->0
        }
    }
}

/// Law: a repeating schedule with a total pulse budget runs down one emitted
/// request at a time. A fresh schedule owes `pulse_count * count` requests;
/// each tick either emits exactly one request, lowering what is owed by one,
/// or emits nothing and leaves it unchanged; and the schedule expires exactly
/// on the tick that emits the last owed request, so it emits nothing further.
pub proof fn lemma_schedule_progress(s: RepeatingFlicker, delta: u64)
    requires
        s.wf(),
        s.count is Some,
        s.pulse_count >= 1,
    ensures
        ({
            let (stepped, emit, remove) = s.spec_step(delta);
            &&& stepped.count is Some
            &&& stepped.pulse_count == s.pulse_count
            &&& stepped.flicker_time_length == s.flicker_time_length
            &&& stepped.color == s.color
            &&& emit ==> stepped.spec_emissions_left() == s.spec_emissions_left() - 1
            &&& !emit ==> stepped.spec_emissions_left() == s.spec_emissions_left()
            &&& remove <==> (emit && stepped.spec_emissions_left() == 0)
            &&& !remove ==> stepped.wf()
        }),
{
    let (stepped, emit, remove) = s.spec_step(delta);
    let p = s.pulse_count as int;
    let c = s.count->0 as int;
    assert(p * (c - 1) >= 0) by (nonlinear_arith)
        requires
            p >= 1,
            c >= 1,
    ;
    if s.curr_pulse_count > 0 {
        if s.timer.spec_tick(delta).just_finished {
            if s.curr_pulse_count == 1 {
                // The pulse ends here: the budget is charged for it.
                assert(stepped.spec_emissions_left() == p * (c - 1));
                assert(s.spec_emissions_left() == 1 + p * (c - 1));
                if c > 1 {
                    assert(p * (c - 1) >= 1) by (nonlinear_arith)
                        requires
                            p >= 1,
                            c > 1,
                    ;
                } else {
                    assert(p * (c - 1) == 0) by (nonlinear_arith)
                        requires
                            c == 1,
                    ;
                }
            }
        }
    } else {
        if s.pulse_timer.spec_tick(delta).just_finished {
            // Re-arming moves a whole pulse from the budget into the counter.
            assert(p * c == p + p * (c - 1)) by (nonlinear_arith);
        }
    }
}

/// A schedule driven through a whole sequence of ticks: the schedule left
/// standing (`None` once it has removed itself — steps after removal do not
/// happen) and how many requests were emitted along the way.
pub open spec fn spec_run_schedule(s: RepeatingFlicker, deltas: Seq<u64>) -> (
    Option<RepeatingFlicker>,
    int,
)
    decreases deltas.len(),
{
    if deltas.len() == 0 {
        (Some(s), 0)
    } else {
        let (stepped, emit, remove) = s.spec_step(deltas[0]);
        let first: int = if emit { 1 } else { 0 };
        if remove {
            (None, first)
        } else {
            let rest = spec_run_schedule(stepped, deltas.drop_first());
            (rest.0, first + rest.1)
        }
    }
}

/// Law: a freshly built schedule with a total pulse budget owes exactly
/// `pulse_count * count` requests.
pub proof fn lemma_fresh_schedule_budget(b: RepeatingFlickerBuilder)
    requires
        b.count is Some,
    ensures
        b.spec_build().spec_emissions_left() == b.pulse_count * b.count->0,
{
}

/// Law: a repeating schedule terminates on its budget. Over any sequence of
/// ticks whatsoever, a well-formed schedule with a total pulse budget emits
/// at most `spec_emissions_left()` requests — `pulse_count * count` for a
/// fresh one — and has removed itself exactly when it has emitted all of
/// them; once removed it never emits again.
pub proof fn lemma_schedule_termination(s: RepeatingFlicker, deltas: Seq<u64>)
    requires
        s.wf(),
        s.count is Some,
        s.pulse_count >= 1,
    ensures
        0 <= spec_run_schedule(s, deltas).1 <= s.spec_emissions_left(),
        spec_run_schedule(s, deltas).0 is None <==> spec_run_schedule(s, deltas).1
            == s.spec_emissions_left(),
    decreases deltas.len(),
{
    let p = s.pulse_count as int;
    let c = s.count->0 as int;
    assert(p * c >= 1 && p * (c - 1) >= 0) by (nonlinear_arith)
        requires
            p >= 1,
            c >= 1,
    ;
    if deltas.len() > 0 {
        let (stepped, emit, remove) = s.spec_step(deltas[0]);
        lemma_schedule_progress(s, deltas[0]);
        if !remove {
            lemma_schedule_termination(stepped, deltas.drop_first());
        }
    }
}

impl Default for RepeatingFlicker {
    fn default() -> (r: Self)
        ensures
            r == RepeatingFlickerBuilder::spec_default().spec_build(),
            r.wf(),
    {
        RepeatingFlickerBuilder::new().build()
    }
}

/// For implementing a builder pattern on [`RepeatingFlicker`].
#[derive(Clone, Copy, Debug, PartialEq, Eq, Structural)]
pub struct RepeatingFlickerBuilder {
    pub flicker_time_length: u64,
    pub time_between_flickers: u64,
    pub time_between_pulses: u64,
    pub color: Rgba,
    pub pulse_count: u32,
    pub count: Option<u32>,
}

impl RepeatingFlickerBuilder {
    /// The starting point: 0.1 s flickers, half a second between flickers
    /// and between pulses, opaque white, one flicker per pulse, no budget.
    pub open spec fn spec_default() -> RepeatingFlickerBuilder {
        RepeatingFlickerBuilder {
            flicker_time_length: 100_000,
            time_between_flickers: 500_000,
            time_between_pulses: 500_000,
            color: Rgba { red: 255, green: 255, blue: 255, alpha: 255 },
            pulse_count: 1,
            count: None,
        }
    }

    pub fn new() -> (r: Self)
        ensures
            r == RepeatingFlickerBuilder::spec_default(),
    {
        RepeatingFlickerBuilder {
            flicker_time_length: 100_000,
            time_between_flickers: 500_000,
            time_between_pulses: 500_000,
            color: Rgba::white(),
            pulse_count: 1,
            count: None,
        }
    }

    pub fn with_flicker_time_length(self, flicker_time_length: u64) -> (r: Self)
        ensures
            r == (RepeatingFlickerBuilder { flicker_time_length, ..self }),
    {
        RepeatingFlickerBuilder { flicker_time_length, ..self }
    }

    pub fn with_time_between_flickers(self, time_between_flickers: u64) -> (r: Self)
        ensures
            r == (RepeatingFlickerBuilder { time_between_flickers, ..self }),
    {
        RepeatingFlickerBuilder { time_between_flickers, ..self }
    }

    pub fn with_color(self, color: Rgba) -> (r: Self)
        ensures
            r == (RepeatingFlickerBuilder { color, ..self }),
    {
        RepeatingFlickerBuilder { color, ..self }
    }

    /// Set a total pulse budget. A budget of zero pulses would already be
    /// spent, so at least one is asked for.
    pub fn with_count(self, count: u32) -> (r: Self)
        requires
            count >= 1,
        ensures
            r == (RepeatingFlickerBuilder { count: Some(count), ..self }),
    {
        RepeatingFlickerBuilder { count: Some(count), ..self }
    }

    pub fn with_pulse_count(self, pulse_count: u32) -> (r: Self)
        ensures
            r == (RepeatingFlickerBuilder { pulse_count, ..self }),
    {
        RepeatingFlickerBuilder { pulse_count, ..self }
    }

    pub fn with_time_between_pulses(self, time_between_pulses: u64) -> (r: Self)
        ensures
            r == (RepeatingFlickerBuilder { time_between_pulses, ..self }),
    {
        RepeatingFlickerBuilder { time_between_pulses, ..self }
    }

    /// What [`RepeatingFlickerBuilder::build`] returns: both clocks repeat,
    /// the intra-pulse period is the gap plus the flicker length itself, and
    /// no pulse is active yet.
    pub open spec fn spec_build(self) -> RepeatingFlicker {
        RepeatingFlicker {
            timer: FlickerTimer {
                mode: TimerMode::Repeating,
                duration: sat_add(self.time_between_flickers, self.flicker_time_length),
                elapsed: 0,
                just_finished: false,
            },
            pulse_timer: FlickerTimer {
                mode: TimerMode::Repeating,
                duration: self.time_between_pulses,
                elapsed: 0,
                just_finished: false,
            },
            flicker_time_length: self.flicker_time_length,
            time_between_flickers: self.time_between_flickers,
            color: self.color,
            count: self.count,
            time_between_pulses: self.time_between_pulses,
            pulse_count: self.pulse_count,
            curr_pulse_count: 0,
        }
    }

    pub fn build(self) -> (r: RepeatingFlicker)
        requires
            self.count matches Some(c) ==> c >= 1,
        ensures
            r == self.spec_build(),
            r.wf(),
    {
        let intra = if self.time_between_flickers > u64::MAX - self.flicker_time_length {
            u64::MAX
        } else {
            self.time_between_flickers + self.flicker_time_length
        };
        RepeatingFlicker {
            timer: FlickerTimer::new(intra, TimerMode::Repeating),
            pulse_timer: FlickerTimer::new(self.time_between_pulses, TimerMode::Repeating),
            flicker_time_length: self.flicker_time_length,
            time_between_flickers: self.time_between_flickers,
            color: self.color,
            count: self.count,
            time_between_pulses: self.time_between_pulses,
            pulse_count: self.pulse_count,
            curr_pulse_count: 0,
        }
    }
}

impl Default for RepeatingFlickerBuilder {
    fn default() -> (r: Self)
        ensures
            r == RepeatingFlickerBuilder::spec_default(),
    {
        RepeatingFlickerBuilder::new()
    }
}

} // verus!
