use vstd::prelude::*;

use crate::components::{FlickerMarker, Flickered, NoFlicker, RepeatingFlicker};
use crate::config::FlickerPluginConfig;
use crate::events::FlickerStartEvent;
use crate::flicker::FlickerMaterial;
use crate::resolve::{resolve, spec_resolve, AssetStore, AtlasLayout, ImageAsset, OverlayGeometry, Sprite};
use crate::timer::{FlickerTimer, TimerMode};

verus! {

/// The ephemeral overlay visual: a structural dependent of its target,
/// destroyed with it. It holds the composited material parameters, the
/// overlay's geometry, and a one-shot decay clock seeded from the request's
/// duration.
#[derive(Clone, Copy, Debug, PartialEq, Eq, Structural)]
pub struct Overlay {
    pub material: FlickerMaterial,
    pub geometry: OverlayGeometry,
    pub flickered: Flickered,
}

/// A visual target: an addressable entity together with the components the
/// engine reads and writes. The overlay, when present, lives inside its
/// target, so destroying the target destroys its overlay with it; the
/// flicker marker stays a distinct record on the target itself.
#[derive(Clone, Copy, Debug, PartialEq, Eq, Structural)]
pub struct Target {
    /// The entity identifier the host knows this target by.
    pub id: u64,

    /// Present on entities that never react to flicker requests.
    pub no_flicker: Option<NoFlicker>,

    /// Present exactly while an overlay is alive; the sole source of truth
    /// for overlap detection.
    pub marker: Option<FlickerMarker>,

    /// The sprite representation, if the target has one.
    pub sprite: Option<Sprite>,

    /// The mesh representation, by handle, if the target has one.
    pub mesh: Option<u64>,

    /// A repeating flicker schedule, if one is attached.
    pub repeating: Option<RepeatingFlicker>,

    /// The live overlay visual, if the target is flickering.
    pub overlay: Option<Overlay>,
}

impl Target {
    /// A bare target: no components beyond its visual representation.
    pub fn new(id: u64, sprite: Option<Sprite>, mesh: Option<u64>, exempt: bool) -> (r: Target)
        ensures
            r == (Target {
                id,
                no_flicker: if exempt { Some(NoFlicker) } else { None },
                marker: None,
                sprite,
                mesh,
                repeating: None,
                overlay: None,
            }),
    {
        Target {
            id,
            no_flicker: if exempt { Some(NoFlicker) } else { None },
            marker: None,
            sprite,
            mesh,
            repeating: None,
            overlay: None,
        }
    }

    /// The target is not flickering and owes nothing: no marker and no
    /// overlay.
    pub open spec fn spec_idle(self) -> bool {
        self.marker is None && self.overlay is None
    }

    /// Side effects are transactional: either a full overlay exists with the
    /// marker attached, or neither does. Partial states are forbidden. Any
    /// live decay clock is well formed and one-shot, and any attached
    /// schedule is well formed.
    pub open spec fn wf(self) -> bool {
        &&& (self.marker is Some <==> self.overlay is Some)
        &&& (self.overlay matches Some(ov) ==> ov.flickered.0.wf() && ov.flickered.0.mode is Once)
        &&& (self.repeating matches Some(rf) ==> rf.wf())
    }

    /// Whether a request for this target is accepted: the target is not
    /// exempt, the overlap policy does not drop it, and its visual resolves.
    pub open spec fn spec_accepts(
        self,
        assets: AssetStore,
        config: FlickerPluginConfig,
        ev: FlickerStartEvent,
    ) -> bool {
        &&& self.no_flicker is None
        &&& !(self.marker is Some && config.spec_ignore_overlap())
        &&& spec_resolve(assets, self.sprite, self.mesh, ev.color) is Ok
    }

    /// The target after one flicker request aimed at it. An accepted request
    /// replaces any previous overlay with a fresh one (fresh full-duration
    /// clock) and attaches the marker; a dropped request changes nothing.
    pub open spec fn spec_start(
        self,
        assets: AssetStore,
        config: FlickerPluginConfig,
        ev: FlickerStartEvent,
    ) -> Target {
        if !self.spec_accepts(assets, config, ev) {
            self
        } else {
            let resolved = spec_resolve(assets, self.sprite, self.mesh, ev.color)->Ok_0;
            Target {
                marker: Some(FlickerMarker),
                overlay: Some(
                    Overlay {
                        material: resolved.0,
                        geometry: resolved.1,
                        flickered: Flickered(
                            FlickerTimer {
                                mode: TimerMode::Once,
                                duration: ev.micros,
                                elapsed: 0,
                                just_finished: false,
                            },
                        ),
                    },
                ),
                ..self
            }
        }
    }

    /// The target after its overlay's decay clock advances by `delta`
    /// microseconds: expiry destroys the overlay and removes the marker,
    /// restoring the idle state; otherwise only the clock moves.
    pub open spec fn spec_tick(self, delta: u64) -> Target {
        match self.overlay {
            Option::None => self,
            Option::Some(ov) => {
                let ticked = ov.flickered.0.spec_tick(delta);
                if ticked.spec_finished() {
                    Target { marker: None, overlay: None, ..self }
                } else {
                    Target {
                        overlay: Some(Overlay { flickered: Flickered(ticked), ..ov }),
                        ..self
                    }
                }
            }
        }
    }

    /// Apply one flicker request to this target. See [`Target::spec_start`].
    pub fn start(self, assets: &AssetStore, config: &FlickerPluginConfig, ev: &FlickerStartEvent) -> (r: Target)
        ensures
            r == self.spec_start(*assets, *config, *ev),
            self.wf() ==> r.wf(),
    {
        if self.no_flicker.is_some() {
            return self;
        }
        if self.marker.is_some() && config.ignore_overlap() {
            return self;
        }
        match resolve(assets, &self.sprite, &self.mesh, ev.color) {
            Err(_) => self,
            Ok((material, geometry)) => Target {
                marker: Some(FlickerMarker),
                overlay: Some(
                    Overlay { material, geometry, flickered: Flickered::with_micros(ev.micros) },
                ),
                ..self
            },
        }
    }

    /// Advance this target's overlay decay clock. See [`Target::spec_tick`].
    pub fn tick(self, delta: u64) -> (r: Target)
        requires
            self.wf(),
        ensures
            r == self.spec_tick(delta),
            r.wf(),
    {
        match self.overlay {
            None => self,
            Some(ov) => {
                let mut timer = ov.flickered.0;
                timer.tick(delta);
                if timer.finished() {
                    Target { marker: None, overlay: None, ..self }
                } else {
                    Target {
                        overlay: Some(Overlay { flickered: Flickered(timer), ..ov }),
                        ..self
                    }
                }
            }
        }
    }

    /// The schedule step for this target: its attached repeating schedule
    /// (if any) advances, possibly emitting a request for this entity, and
    /// is removed when its budget is spent.
    pub open spec fn spec_repeat(self, delta: u64) -> (Target, Option<FlickerStartEvent>) {
        match self.repeating {
            Option::None => (self, None),
            Option::Some(rf) => {
                let (stepped, emit, remove) = rf.spec_step(delta);
                (
                    Target { repeating: if remove { None } else { Some(stepped) }, ..self },
                    if emit { Some(rf.spec_generate_start_event(self.id)) } else { None },
                )
            }
        }
    }

    /// Advance this target's repeating schedule, returning the request it
    /// emits this tick, if any. See [`Target::spec_repeat`].
    pub fn repeat(self, delta: u64) -> (r: (Target, Option<FlickerStartEvent>))
        requires
            self.wf(),
        ensures
            r == self.spec_repeat(delta),
            r.0.wf(),
    {
        match self.repeating {
            None => (self, None),
            Some(rf) => {
                let event = rf.generate_start_event(self.id);
                let mut stepped = rf;
                let (emit, remove) = stepped.step(delta);
                (
                    Target { repeating: if remove { None } else { Some(stepped) }, ..self },
                    if emit { Some(event) } else { None },
                )
            }
        }
    }
}

/// The position of the first target with the given entity identifier, or
/// `-1` when no target has it. A request aimed at an entity that no longer
/// exists finds nothing and is silently skipped.
pub open spec fn spec_find_target_idx(ts: Seq<Target>, id: u64) -> int
    decreases ts.len(),
{
    if ts.len() == 0 {
        -1
    } else if ts[0].id == id {
        0
    } else {
        let r = spec_find_target_idx(ts.drop_first(), id);
        if r < 0 {
            -1
        } else {
            r + 1
        }
    }
}

pub fn find_target_idx(targets: &Vec<Target>, id: u64) -> (r: Option<usize>)
    ensures
        match r {
            Some(i) => i < targets.len() && spec_find_target_idx(targets@, id) == i,
            None => spec_find_target_idx(targets@, id) == -1,
        },
{
    let n = targets.len();
    let mut i: usize = 0;
    proof {
        assert(targets@.skip(0) =~= targets@);
    }
    while i < n
        invariant
            i <= n,
            n == targets.len(),
            spec_find_target_idx(targets@, id) == (if spec_find_target_idx(
                targets@.skip(i as int),
                id,
            ) < 0 {
                -1int
            } else {
                i + spec_find_target_idx(targets@.skip(i as int), id)
            }),
        decreases n - i,
    {
        if targets[i].id == id {
            proof {
                assert(targets@.skip(i as int)[0] == targets@[i as int]);
            }
            return Some(i);
        }
        proof {
            assert(targets@.skip(i as int)[0] == targets@[i as int]);
            assert(targets@.skip(i as int).drop_first() =~= targets@.skip(i as int + 1));
        }
        i = i + 1;
    }
    None
}

/// The whole engine state a host drives: the process-wide configuration,
/// the asset store, and every known visual target.
#[derive(Clone, Debug)]
pub struct World {
    pub config: FlickerPluginConfig,
    pub assets: AssetStore,
    pub targets: Vec<Target>,
    /// The next entity identifier to hand out; all existing targets have
    /// smaller ones.
    pub next_id: u64,
}

impl World {
    /// Every target is well formed, identifiers are unique, and all sit
    /// below the spawn counter.
    pub open spec fn wf(self) -> bool {
        &&& forall|i: int|
            0 <= i < self.targets@.len() ==> (#[trigger] self.targets@[i]).wf()
        &&& forall|i: int|
            0 <= i < self.targets@.len() ==> (#[trigger] self.targets@[i]).id < self.next_id
        &&& forall|i: int, j: int|
            0 <= i < j < self.targets@.len() ==> self.targets@[i].id != self.targets@[j].id
    }

    pub fn new(config: FlickerPluginConfig) -> (w: World)
        ensures
            w.config == config,
            w.targets@ == Seq::<Target>::empty(),
            w.assets.images@ == Seq::<ImageAsset>::empty(),
            w.assets.atlas_layouts@ == Seq::<AtlasLayout>::empty(),
            w.assets.meshes@ == Seq::<u64>::empty(),
            w.next_id == 0,
            w.wf(),
    {
        World { config, assets: AssetStore::new(), targets: Vec::new(), next_id: 0 }
    }

    /// Add a fresh target with the given visual representation. Returns its
    /// entity identifier, which no existing target shares.
    pub fn spawn(&mut self, sprite: Option<Sprite>, mesh: Option<u64>, exempt: bool) -> (id: u64)
        requires
            old(self).wf(),
            old(self).next_id < u64::MAX,
        ensures
            id == old(self).next_id,
            final(self).targets@ == old(self).targets@.push(
                Target {
                    id,
                    no_flicker: if exempt { Some(NoFlicker) } else { None },
                    marker: None,
                    sprite,
                    mesh,
                    repeating: None,
                    overlay: None,
                },
            ),
            final(self).next_id == old(self).next_id + 1,
            final(self).config == old(self).config,
            final(self).assets == old(self).assets,
            final(self).wf(),
    {
        let id = self.next_id;
        self.targets.push(Target::new(id, sprite, mesh, exempt));
        self.next_id = self.next_id + 1;
        id
    }

    /// A copy of the first target with the given identifier, if any.
    pub fn get_target(&self, id: u64) -> (r: Option<Target>)
        ensures
            ({
                let i = spec_find_target_idx(self.targets@, id);
                match r {
                    Some(t) => i >= 0 && t == self.targets@[i],
                    None => i == -1,
                }
            }),
    {
        match find_target_idx(&self.targets, id) {
            Some(i) => Some(self.targets[i]),
            None => None,
        }
    }

    /// Attach a repeating flicker schedule to the target with the given
    /// identifier. Returns whether such a target exists.
    pub fn set_repeating(&mut self, id: u64, schedule: RepeatingFlicker) -> (found: bool)
        requires
            old(self).wf(),
            schedule.wf(),
        ensures
            ({
                let i = spec_find_target_idx(old(self).targets@, id);
                &&& found <==> i >= 0
                &&& i >= 0 ==> final(self).targets@ == old(self).targets@.update(
                    i,
                    Target { repeating: Some(schedule), ..old(self).targets@[i] },
                )
                &&& i < 0 ==> final(self).targets@ == old(self).targets@
            }),
            final(self).config == old(self).config,
            final(self).assets == old(self).assets,
            final(self).next_id == old(self).next_id,
            final(self).wf(),
    {
        match find_target_idx(&self.targets, id) {
            Some(i) => {
                let t = self.targets[i];
                self.targets.set(i, Target { repeating: Some(schedule), ..t });
                true
            }
            None => false,
        }
    }

    /// Destroy the first target with the given identifier. Its overlay, as
    /// a structural dependent, is destroyed with it. Returns whether such a
    /// target existed.
    pub fn despawn(&mut self, id: u64) -> (found: bool)
        requires
            old(self).wf(),
        ensures
            ({
                let i = spec_find_target_idx(old(self).targets@, id);
                &&& found <==> i >= 0
                &&& i >= 0 ==> final(self).targets@ == old(self).targets@.remove(i)
                &&& i < 0 ==> final(self).targets@ == old(self).targets@
            }),
            final(self).config == old(self).config,
            final(self).assets == old(self).assets,
            final(self).next_id == old(self).next_id,
            final(self).wf(),
    {
        match find_target_idx(&self.targets, id) {
            Some(i) => {
                self.targets.remove(i);
                true
            }
            None => false,
        }
    }
}

/// Law: restoring is idempotent. For an idle target, once an accepted
/// request's full duration has elapsed, the target is indistinguishable from
/// its state immediately before the request: no residual overlay, no marker,
/// every other component untouched.
pub proof fn lemma_idempotent_restore(
    t: Target,
    assets: AssetStore,
    config: FlickerPluginConfig,
    ev: FlickerStartEvent,
    delta: u64,
)
    requires
        t.spec_idle(),
        t.spec_accepts(assets, config, ev),
        delta >= ev.micros,
    ensures
        t.spec_start(assets, config, ev).spec_tick(delta) == t,
{
}

/// The total time a sequence of ticks covers.
pub open spec fn spec_total(deltas: Seq<u64>) -> int
    decreases deltas.len(),
{
    if deltas.len() == 0 {
        0
    } else {
        deltas[0] + spec_total(deltas.drop_first())
    }
}

/// A target driven through a whole sequence of decay ticks.
pub open spec fn spec_tick_run(t: Target, deltas: Seq<u64>) -> Target
    decreases deltas.len(),
{
    if deltas.len() == 0 {
        t
    } else {
        spec_tick_run(t.spec_tick(deltas[0]), deltas.drop_first())
    }
}

/// A target with no overlay is a fixed point of decay ticking.
pub proof fn lemma_tick_run_fixed(t: Target, deltas: Seq<u64>)
    requires
        t.overlay is None,
    ensures
        spec_tick_run(t, deltas) == t,
    decreases deltas.len(),
{
    if deltas.len() > 0 {
        lemma_tick_run_fixed(t, deltas.drop_first());
    }
}

/// A live overlay whose remaining time is covered by the coming ticks
/// expires during them: the overlay is destroyed and the marker removed,
/// and nothing else about the target changes.
pub proof fn lemma_tick_run_expires(t: Target, deltas: Seq<u64>)
    requires
        t.overlay matches Some(ov) && ov.flickered.0.mode is Once,
        deltas.len() >= 1,
        t.overlay->0.flickered.0.elapsed + spec_total(deltas) >= t.overlay->0.flickered.0.duration,
    ensures
        spec_tick_run(t, deltas) == (Target { marker: None, overlay: None, ..t }),
    decreases deltas.len(),
{
    let ov = t.overlay->0;
    let ticked = ov.flickered.0.spec_tick(deltas[0]);
    if ticked.spec_finished() {
        lemma_tick_run_fixed(Target { marker: None, overlay: None, ..t }, deltas.drop_first());
    } else {
        // The remaining ticks cannot be empty: a last tick covering the
        // remaining time would have finished the clock.
        if deltas.drop_first().len() == 0 {
            assert(spec_total(deltas) == deltas[0] + spec_total(deltas.drop_first()));
            assert(ov.flickered.0.elapsed + deltas[0] >= ov.flickered.0.duration);
            assert(false);
        }
        lemma_tick_run_expires(t.spec_tick(deltas[0]), deltas.drop_first());
    }
}

/// Law: restoring is idempotent over any tick cadence. For an idle target,
/// an accepted request followed by any sequence of ticks that covers the
/// request's duration leaves the target exactly as it was before the
/// request.
pub proof fn lemma_idempotent_restore_run(
    t: Target,
    assets: AssetStore,
    config: FlickerPluginConfig,
    ev: FlickerStartEvent,
    deltas: Seq<u64>,
)
    requires
        t.spec_idle(),
        t.spec_accepts(assets, config, ev),
        deltas.len() >= 1,
        spec_total(deltas) >= ev.micros,
    ensures
        spec_tick_run(t.spec_start(assets, config, ev), deltas) == t,
{
    lemma_tick_run_expires(t.spec_start(assets, config, ev), deltas);
}

/// Law: under the `Ignore` overlap policy, a request aimed at a target that
/// is already flickering has zero observable effect — the original overlay,
/// its remaining time and its color are all left as they were.
pub proof fn lemma_overlap_ignore(
    t: Target,
    assets: AssetStore,
    config: FlickerPluginConfig,
    ev: FlickerStartEvent,
)
    requires
        t.marker is Some,
        config.spec_ignore_overlap(),
    ensures
        t.spec_start(assets, config, ev) == t,
{
}

/// Law: under the `Overwrite` overlap policy, an accepted request aimed at a
/// target that is already flickering replaces the old overlay outright: the
/// target ends up with exactly the overlay resolved from the new request,
/// with a fresh full-duration decay clock (nothing of the old overlay's
/// elapsed time is resumed), and no other component changes.
pub proof fn lemma_overlap_overwrite(
    t: Target,
    assets: AssetStore,
    config: FlickerPluginConfig,
    ev: FlickerStartEvent,
)
    requires
        t.marker is Some,
        !config.spec_ignore_overlap(),
        t.no_flicker is None,
        spec_resolve(assets, t.sprite, t.mesh, ev.color) is Ok,
    ensures
        ({
            let r = t.spec_start(assets, config, ev);
            let resolved = spec_resolve(assets, t.sprite, t.mesh, ev.color)->Ok_0;
            &&& r.overlay == Some(
                Overlay {
                    material: resolved.0,
                    geometry: resolved.1,
                    flickered: Flickered(
                        FlickerTimer {
                            mode: TimerMode::Once,
                            duration: ev.micros,
                            elapsed: 0,
                            just_finished: false,
                        },
                    ),
                },
            )
            &&& r.marker == Some(FlickerMarker)
            &&& r.id == t.id
            &&& r.no_flicker == t.no_flicker
            &&& r.sprite == t.sprite
            &&& r.mesh == t.mesh
            &&& r.repeating == t.repeating
        }),
{
}

/// Law: a request whose target does not resolve — no recognizable visual
/// representation, or a referenced resource not loaded — is dropped
/// entirely: no overlay, no marker, no change at all. Whether a later
/// request succeeds depends only on the target and the store at that time,
/// never on such a failure.
pub proof fn lemma_unresolvable_safety(
    t: Target,
    assets: AssetStore,
    config: FlickerPluginConfig,
    ev: FlickerStartEvent,
)
    requires
        spec_resolve(assets, t.sprite, t.mesh, ev.color) is Err,
    ensures
        t.spec_start(assets, config, ev) == t,
{
}

} // verus!
