use vstd::prelude::*;

use crate::config::FlickerPluginConfig;
use crate::events::FlickerStartEvent;
use crate::resolve::AssetStore;
use crate::world::{spec_find_target_idx, find_target_idx, Target, World};

verus! {

/// One pending request applied to the targets: the first target with the
/// request's entity identifier takes a [`Target::spec_start`] transition; a
/// request for an entity that no longer exists is silently skipped.
pub open spec fn spec_apply_event(
    ts: Seq<Target>,
    assets: AssetStore,
    config: FlickerPluginConfig,
    ev: FlickerStartEvent,
) -> Seq<Target> {
    let i = spec_find_target_idx(ts, ev.entity);
    if i < 0 {
        ts
    } else {
        ts.update(i, ts[i].spec_start(assets, config, ev))
    }
}

/// The first `n` pending requests applied in order.
pub open spec fn spec_apply_events(
    ts: Seq<Target>,
    assets: AssetStore,
    config: FlickerPluginConfig,
    evs: Seq<FlickerStartEvent>,
    n: int,
) -> Seq<Target>
    decreases n,
{
    if n <= 0 {
        ts
    } else {
        spec_apply_event(spec_apply_events(ts, assets, config, evs, n - 1), assets, config, evs[n - 1])
    }
}

/// The requests the targets' repeating schedules emit this tick, in target
/// order, one at most per schedule.
pub open spec fn spec_repeat_emitted(ts: Seq<Target>, delta: u64, n: int) -> Seq<FlickerStartEvent>
    decreases n,
{
    if n <= 0 {
        Seq::empty()
    } else {
        let prev = spec_repeat_emitted(ts, delta, n - 1);
        match ts[n - 1].spec_repeat(delta).1 {
            Option::Some(e) => prev.push(e),
            Option::None => prev,
        }
    }
}

/// Process all pending flicker requests, in order: overlap resolution
/// against each target's current flicker state, then overlay construction
/// from its visual resource. Dropped requests (exempt target, ignored
/// overlap, unresolvable visual, stale entity) change nothing.
pub fn flicker_start(world: &mut World, events: &Vec<FlickerStartEvent>)
    requires
        old(world).wf(),
    ensures
        final(world).targets@ == spec_apply_events(
            old(world).targets@,
            old(world).assets,
            old(world).config,
            events@,
            events@.len() as int,
        ),
        final(world).config == old(world).config,
        final(world).assets == old(world).assets,
        final(world).next_id == old(world).next_id,
        final(world).wf(),
{
    let ghost ts0 = world.targets@;
    let ghost assets0 = world.assets;
    let ghost config0 = world.config;
    let n = events.len();
    let mut k: usize = 0;
    while k < n
        invariant
            k <= n,
            n == events.len(),
            world.targets@ == spec_apply_events(ts0, assets0, config0, events@, k as int),
            world.config == config0,
            world.assets == assets0,
            world.next_id == old(world).next_id,
            world.wf(),
            old(world).targets@ == ts0,
            old(world).assets == assets0,
            old(world).config == config0,
        decreases n - k,
    {
        let ev = events[k];
        match find_target_idx(&world.targets, ev.entity) {
            None => {}
            Some(i) => {
                let t = world.targets[i];
                let t2 = t.start(&world.assets, &world.config, &ev);
                world.targets.set(i, t2);
                proof {
                    assert(t2.id == t.id);
                }
            }
        }
        k = k + 1;
    }
}

/// Advance all active overlay decay clocks and perform expirations: an
/// expired overlay is destroyed and its target's flicker marker removed.
pub fn flicker_tick(world: &mut World, delta: u64)
    requires
        old(world).wf(),
    ensures
        final(world).targets@ == old(world).targets@.map_values(
            |t: Target| t.spec_tick(delta),
        ),
        final(world).config == old(world).config,
        final(world).assets == old(world).assets,
        final(world).next_id == old(world).next_id,
        final(world).wf(),
{
    let ghost ts0 = world.targets@;
    let n = world.targets.len();
    let mut i: usize = 0;
    while i < n
        invariant
            i <= n,
            n == world.targets.len(),
            forall|j: int| 0 <= j < i ==> world.targets@[j] == (#[trigger] ts0[j]).spec_tick(delta),
            forall|j: int| i <= j < n ==> world.targets@[j] == ts0[j],
            world.config == old(world).config,
            world.assets == old(world).assets,
            world.next_id == old(world).next_id,
            world.wf(),
            old(world).targets@ == ts0,
        decreases n - i,
    {
        let t = world.targets[i];
        let t2 = t.tick(delta);
        world.targets.set(i, t2);
        proof {
            assert(t2.id == t.id);
        }
        i = i + 1;
    }
    proof {
        assert(world.targets@ =~= ts0.map_values(|t: Target| t.spec_tick(delta)));
    }
}

/// Advance all repeating pulse schedules, collecting the requests they
/// emit, in target order, for the next tick's request processing. A
/// schedule whose total pulse budget is spent is removed from its target.
pub fn repeating_flicker_tick(world: &mut World, delta: u64) -> (emitted: Vec<FlickerStartEvent>)
    requires
        old(world).wf(),
    ensures
        final(world).targets@ == old(world).targets@.map_values(
            |t: Target| t.spec_repeat(delta).0,
        ),
        emitted@ == spec_repeat_emitted(
            old(world).targets@,
            delta,
            old(world).targets@.len() as int,
        ),
        final(world).config == old(world).config,
        final(world).assets == old(world).assets,
        final(world).next_id == old(world).next_id,
        final(world).wf(),
{
    let ghost ts0 = world.targets@;
    let mut emitted: Vec<FlickerStartEvent> = Vec::new();
    let n = world.targets.len();
    let mut i: usize = 0;
    while i < n
        invariant
            i <= n,
            n == world.targets.len(),
            forall|j: int|
                0 <= j < i ==> world.targets@[j] == (#[trigger] ts0[j]).spec_repeat(delta).0,
            forall|j: int| i <= j < n ==> world.targets@[j] == ts0[j],
            emitted@ == spec_repeat_emitted(ts0, delta, i as int),
            world.config == old(world).config,
            world.assets == old(world).assets,
            world.next_id == old(world).next_id,
            world.wf(),
            old(world).targets@ == ts0,
        decreases n - i,
    {
        let t = world.targets[i];
        let (t2, event) = t.repeat(delta);
        world.targets.set(i, t2);
        if let Some(e) = event {
            emitted.push(e);
        }
        proof {
            assert(t2.id == t.id);
        }
        i = i + 1;
    }
    proof {
        assert(world.targets@ =~= ts0.map_values(|t: Target| t.spec_repeat(delta).0));
    }
    emitted
}

/// One whole scheduling tick: what [`update`] does to the targets and what
/// it hands back as the next tick's pending requests.
pub open spec fn spec_update(
    ts: Seq<Target>,
    assets: AssetStore,
    config: FlickerPluginConfig,
    pending: Seq<FlickerStartEvent>,
    delta: u64,
) -> (Seq<Target>, Seq<FlickerStartEvent>) {
    let started = spec_apply_events(ts, assets, config, pending, pending.len() as int);
    let ticked = started.map_values(|t: Target| t.spec_tick(delta));
    (
        ticked.map_values(|t: Target| t.spec_repeat(delta).0),
        spec_repeat_emitted(ticked, delta, ticked.len() as int),
    )
}

/// One scheduling tick, in the defined order: (1) process all pending
/// flicker requests, (2) advance all overlay decay clocks and perform
/// expirations, (3) advance all repeating schedules, returning the requests
/// they emit for the *next* tick's step (1). This ordering guarantees that
/// a request emitted by a repeating schedule is seen by overlap resolution
/// exactly once.
pub fn update(world: &mut World, pending: &Vec<FlickerStartEvent>, delta: u64) -> (next: Vec<
    FlickerStartEvent,
>)
    requires
        old(world).wf(),
    ensures
        final(world).targets@ == spec_update(
            old(world).targets@,
            old(world).assets,
            old(world).config,
            pending@,
            delta,
        ).0,
        next@ == spec_update(
            old(world).targets@,
            old(world).assets,
            old(world).config,
            pending@,
            delta,
        ).1,
        final(world).config == old(world).config,
        final(world).assets == old(world).assets,
        final(world).next_id == old(world).next_id,
        final(world).wf(),
{
    flicker_start(world, pending);
    flicker_tick(world, delta);
    repeating_flicker_tick(world, delta)
}

} // verus!
