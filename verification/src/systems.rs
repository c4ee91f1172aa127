//! The per-frame systems and the stage order the scheduler runs them
//! in.
//!
//! Stages per frame, strictly ordered: first the ingest stage (clock
//! advance, event-queue rotation), then the update stage (frame
//! counter, camera control), then the render stage.  The startup
//! stage (`World::complete_startup`) runs exactly once, before any
//! frame.  Systems inside one stage touch disjoint state, so their
//! order within the stage does not matter; the commutation lemmas at
//! the end prove that for both stages.

use vstd::prelude::*;
use crate::camera::{spec_update, Camera};
use crate::input::{ElementState, KeyCode, KeyboardInput};
use crate::time::{reference_point, spec_advance};
use crate::world::{world_wf, World, WorldView};

verus! {

/// The logical key of an event, with the fallback for an absent one.
pub open spec fn key_of(e: KeyboardInput) -> KeyCode {
    match e.key_code {
        Some(k) => k,
        None => KeyCode::Return,
    }
}

/// The keys of the pressed events among the first `i`, in order;
/// release events do not move the camera.
pub open spec fn pressed_keys_upto(events: Seq<KeyboardInput>, i: int) -> Seq<KeyCode>
    decreases i,
{
    if i <= 0 {
        Seq::empty()
    } else {
        pressed_keys_upto(events, i - 1) + (if events[i - 1].state == ElementState::Pressed {
            seq![key_of(events[i - 1])]
        } else {
            Seq::<KeyCode>::empty()
        })
    }
}

/// The keys of all pressed events, in queue order.
pub open spec fn pressed_keys(events: Seq<KeyboardInput>) -> Seq<KeyCode> {
    pressed_keys_upto(events, events.len() as int)
}

/// The clock's delta as a fixed-point scalar: microseconds are
/// micro-units of a second, clamped into the scalar range.
pub open spec fn delta_fx_of(t: crate::time::Time) -> int {
    if t.delta_us > i64::MAX as u64 {
        i64::MAX as int
    } else {
        t.delta_us as int
    }
}

/// The camera store with the first `i` slots updated by one frame's
/// keys and delta.
pub open spec fn cameras_after(
    cams: Seq<Option<Camera>>,
    keys: Seq<KeyCode>,
    delta: int,
    i: int,
) -> Seq<Option<Camera>>
    decreases i,
{
    if i <= 0 {
        cams
    } else {
        cameras_after(cams, keys, delta, i - 1).update(
            i - 1,
            match cams[i - 1] {
                Some(c) => Some(spec_update(c, keys, delta)),
                None => None,
            },
        )
    }
}

/// What the clock system does: advance the clock to the new sample.
pub open spec fn sys_time(v: WorldView, now_us: u64) -> WorldView {
    WorldView { time: spec_advance(v.time, now_us), ..v }
}

/// What the event-queue system does: rotate the double buffer at the
/// frame boundary.
pub open spec fn sys_rotate_events(v: WorldView) -> WorldView {
    WorldView { current_events: v.pending_events, pending_events: Seq::empty(), ..v }
}

/// What the frame counter does: count one more frame, saturating.
pub open spec fn sys_counter(v: WorldView) -> WorldView {
    WorldView {
        count: if v.count == u64::MAX {
            v.count
        } else {
            (v.count + 1) as u64
        },
        ..v
    }
}

/// What camera control does: update every camera with the pressed
/// keys visible this frame and the clock's delta.
pub open spec fn sys_camera_control(v: WorldView) -> WorldView {
    WorldView {
        cameras: cameras_after(
            v.cameras,
            pressed_keys(v.current_events),
            delta_fx_of(v.time),
            v.cameras.len() as int,
        ),
        ..v
    }
}

/// One whole ingest-and-simulate pass: the ingest stage's systems,
/// then the update stage's.
pub open spec fn spec_simulate(v: WorldView, now_us: u64) -> WorldView {
    sys_camera_control(sys_counter(sys_rotate_events(sys_time(v, now_us))))
}

/// The frame counter system.
pub fn counter(world: &mut World)
    ensures
        final(world)@ == sys_counter(old(world)@),
{
    if world.count.0 < u64::MAX {
        world.count.0 = world.count.0 + 1;
    }
    proof {
        assert(world@ =~= sys_counter(old(world)@));
    }
}

/// The camera control system: every camera moves by the pressed keys
/// visible this frame, scaled by the clock's delta.
pub fn camera_control(world: &mut World)
    ensures
        final(world)@ == sys_camera_control(old(world)@),
{
    let ghost v0 = world@;
    let mut keys: Vec<KeyCode> = Vec::new();
    let events = &world.key_events.current;
    let mut i: usize = 0;
    while i < events.len()
        invariant
            i <= events@.len(),
            keys@ == pressed_keys_upto(events@, i as int),
        decreases events@.len() - i,
    {
        let e = &events[i];
        match e.state {
            ElementState::Pressed => {
                let k = match e.key_code {
                    Some(k) => k,
                    None => KeyCode::Return,
                };
                keys.push(k);
            },
            ElementState::Released => {},
        }
        i = i + 1;
    }
    let delta_us = world.time.delta_us;
    let delta: i64 = if delta_us > i64::MAX as u64 {
        i64::MAX
    } else {
        delta_us as i64
    };
    let ghost all_keys = pressed_keys(v0.current_events);
    let n = world.cameras.len();
    let mut j: usize = 0;
    while j < n
        invariant
            j <= n,
            n == world.cameras@.len(),
            keys@ == all_keys,
            delta as int == delta_fx_of(v0.time),
            world.cameras@ == cameras_after(v0.cameras, all_keys, delta as int, j as int),
            forall|k: int| j <= k < n ==> world.cameras@[k] == v0.cameras[k],
            world.count.0 == v0.count,
            world.time == v0.time,
            world.key_events.pending@ == v0.pending_events,
            world.key_events.current@ == v0.current_events,
            world.startup_done == v0.startup_done,
            world.surface_config == v0.surface_config,
            world.pipeline == v0.pipeline,
            world.models@ == v0.models,
            world.transforms@ == v0.transforms,
        decreases n - j,
    {
        let ghost before = world.cameras@;
        proof {
            assert(before[j as int] == v0.cameras[j as int]);
        }
        match world.cameras[j] {
            Some(mut c) => {
                c.update(&keys, delta);
                world.cameras.set(j, Some(c));
                proof {
                    assert(world.cameras@ =~= cameras_after(
                        v0.cameras,
                        all_keys,
                        delta as int,
                        j as int + 1,
                    ));
                }
            },
            None => {
                proof {
                    assert(cameras_after(v0.cameras, all_keys, delta as int, j as int + 1)
                        =~= before.update(j as int, None));
                    assert(before.update(j as int, None) =~= before);
                }
            },
        }
        j = j + 1;
    }
    proof {
        assert(world@ =~= sys_camera_control(v0));
    }
}

/// The camera store after an update, slot by slot: every slot below
/// `i` holds its updated camera, every slot above holds its old
/// value, and occupancy never changes.
pub proof fn lemma_cameras_after_pointwise(
    cams: Seq<Option<Camera>>,
    keys: Seq<KeyCode>,
    delta: int,
    i: int,
)
    requires
        0 <= i <= cams.len(),
    ensures
        cameras_after(cams, keys, delta, i).len() == cams.len(),
        forall|k: int|
            0 <= k < i ==> #[trigger] cameras_after(cams, keys, delta, i)[k] == (match cams[k] {
                Some(c) => Some(spec_update(c, keys, delta)),
                None => None,
            }),
        forall|k: int|
            i <= k < cams.len() ==> #[trigger] cameras_after(cams, keys, delta, i)[k] == cams[k],
    decreases i,
{
    if i > 0 {
        lemma_cameras_after_pointwise(cams, keys, delta, i - 1);
    }
}

/// One whole ingest-and-simulate pass over the world, stage by
/// stage, against the current sample of the wall time.  The world
/// invariant is preserved.
pub fn frame_simulate(world: &mut World, now_us: u64)
    requires
        world_wf(*old(world)),
        now_us >= reference_point(old(world).time),
    ensures
        final(world)@ == spec_simulate(old(world)@, now_us),
        world_wf(*final(world)),
{
    world.time.update(now_us);
    world.key_events.rotate();
    proof {
        assert(world@ =~= sys_rotate_events(sys_time(old(world)@, now_us)));
    }
    counter(world);
    camera_control(world);
    proof {
        let v = old(world)@;
        lemma_cameras_after_pointwise(
            v.cameras,
            pressed_keys(v.pending_events),
            delta_fx_of(spec_advance(v.time, now_us)),
            v.cameras.len() as int,
        );
        if old(world).startup_done {
            let k = choose|k: int|
                0 <= k < v.cameras.len() && (#[trigger] v.cameras[k]) is Some;
            assert(world.cameras@[k] is Some);
        }
    }
}

/// One whole frame against the world: the ingest and update stages
/// in order, then the render stage's decision for the acquisition
/// outcome the platform reports.  Startup must have completed first,
/// and never re-runs.
pub fn run_frame(world: &mut World, now_us: u64, acquire: crate::gpu::AcquireResult) -> (r: crate::render::RenderAction)
    requires
        world_wf(*old(world)),
        old(world).startup_done,
        now_us >= reference_point(old(world).time),
    ensures
        final(world)@ == spec_simulate(old(world)@, now_us),
        world_wf(*final(world)),
        acquire == crate::gpu::AcquireResult::OutOfMemory <==> r is Fatal,
        acquire == crate::gpu::AcquireResult::Lost ==> r == (crate::render::RenderAction::Skip {
            reconfigure: true,
        }),
        acquire == crate::gpu::AcquireResult::Other ==> r == (crate::render::RenderAction::Skip {
            reconfigure: false,
        }),
        acquire == crate::gpu::AcquireResult::Success ==> (r matches crate::render::RenderAction::Draw(
            cmds,
        ) && cmds@ == crate::render::frame_cmds(*final(world))),
{
    frame_simulate(world, now_us);
    world.render_frame(acquire)
}

/// The two systems of the ingest stage touch disjoint resources, so
/// running them in either order yields the same world.
pub proof fn lemma_ingest_stage_commutes(v: WorldView, now_us: u64)
    ensures
        sys_rotate_events(sys_time(v, now_us)) == sys_time(sys_rotate_events(v), now_us),
{
    assert(sys_rotate_events(sys_time(v, now_us)) =~= sys_time(sys_rotate_events(v), now_us));
}

/// The two systems of the update stage touch disjoint resources, so
/// running them in either order yields the same world.
pub proof fn lemma_update_stage_commutes(v: WorldView)
    ensures
        sys_camera_control(sys_counter(v)) == sys_counter(sys_camera_control(v)),
{
    assert(sys_camera_control(sys_counter(v)) =~= sys_counter(sys_camera_control(v)));
}

} // verus!
