//! The resource registry and entity store: singleton resources the
//! systems share, and parallel per-component stores keyed by entity
//! id, in entity creation order.

use vstd::prelude::*;
use crate::camera::Camera;
use crate::events::KeyboardEvents;
use crate::gpu::{RenderPipeline, SurfaceConfig};
use crate::model::{model_wf, Model};
use crate::time::{time_wf, Time};
use crate::transform::Transform;

verus! {

/// The frame counter resource: how many frames have been simulated.
#[derive(Clone, Copy, Debug, PartialEq, Eq, Structural)]
pub struct Count(pub u64);

/// The world: every singleton resource, and one store per component
/// type, all three stores holding one slot per entity.
pub struct World {
    /// Whether the startup stage has published the pipeline bundle.
    pub startup_done: bool,
    pub count: Count,
    pub time: Time,
    pub key_events: KeyboardEvents,
    pub surface_config: SurfaceConfig,
    pub pipeline: Option<RenderPipeline>,
    pub cameras: Vec<Option<Camera>>,
    pub models: Vec<Option<Model>>,
    pub transforms: Vec<Option<Transform>>,
}

/// Number of entities ever spawned.
pub open spec fn entity_count(w: World) -> nat {
    w.cameras@.len()
}

/// The world invariant: the stores stay parallel, every stored model
/// keeps the model invariant, the clock is well formed, and once
/// startup has run, the pipeline bundle and a camera exist.
pub open spec fn world_wf(w: World) -> bool {
    &&& w.cameras@.len() == w.models@.len()
    &&& w.models@.len() == w.transforms@.len()
    &&& (forall|i: int|
        0 <= i < w.models@.len() ==> ((#[trigger] w.models@[i]) matches Some(m) ==> model_wf(m)))
    &&& time_wf(w.time)
    &&& (w.startup_done ==> w.pipeline is Some)
    &&& (w.startup_done ==> exists|i: int|
        0 <= i < w.cameras@.len() && (#[trigger] w.cameras@[i]) is Some)
}

/// The mathematical model of a world: the same resources and stores,
/// with every collection as a sequence.
#[verifier::ext_equal]
pub struct WorldView {
    pub startup_done: bool,
    pub count: u64,
    pub time: Time,
    pub pending_events: Seq<crate::input::KeyboardInput>,
    pub current_events: Seq<crate::input::KeyboardInput>,
    pub surface_config: SurfaceConfig,
    pub pipeline: Option<RenderPipeline>,
    pub cameras: Seq<Option<Camera>>,
    pub models: Seq<Option<Model>>,
    pub transforms: Seq<Option<Transform>>,
}

impl View for World {
    type V = WorldView;

    open spec fn view(&self) -> WorldView {
        WorldView {
            startup_done: self.startup_done,
            count: self.count.0,
            time: self.time,
            pending_events: self.key_events.pending@,
            current_events: self.key_events.current@,
            surface_config: self.surface_config,
            pipeline: self.pipeline,
            cameras: self.cameras@,
            models: self.models@,
            transforms: self.transforms@,
        }
    }
}

impl World {
    /// A fresh world: no entities, startup still to run, the clock
    /// started at the given sample of the wall time.
    pub fn new(now_us: u64, surface_config: SurfaceConfig) -> (r: World)
        ensures
            world_wf(r),
            !r.startup_done,
            r.count == (Count(0u64)),
            r.time == (Time { start_us: now_us, last_update_us: None::<u64>, delta_us: 0u64 }),
            r.surface_config == surface_config,
            r.pipeline is None,
            entity_count(r) == 0,
            r.key_events.pending@.len() == 0,
            r.key_events.current@.len() == 0,
    {
        World {
            startup_done: false,
            count: Count(0),
            time: Time::new(now_us),
            key_events: KeyboardEvents::new(),
            surface_config,
            pipeline: None,
            cameras: Vec::new(),
            models: Vec::new(),
            transforms: Vec::new(),
        }
    }

    /// Creates an entity with no components yet and returns its id,
    /// the next slot in creation order.
    pub fn spawn(&mut self) -> (e: usize)
        requires
            world_wf(*old(self)),
        ensures
            world_wf(*final(self)),
            e == entity_count(*old(self)),
            final(self).cameras@ == old(self).cameras@.push(None::<Camera>),
            final(self).models@ == old(self).models@.push(None::<Model>),
            final(self).transforms@ == old(self).transforms@.push(None::<Transform>),
            final(self).startup_done == old(self).startup_done,
            final(self).count == old(self).count,
            final(self).time == old(self).time,
            final(self).surface_config == old(self).surface_config,
            final(self).pipeline == old(self).pipeline,
    {
        let e = self.cameras.len();
        self.cameras.push(None);
        self.models.push(None);
        self.transforms.push(None);
        proof {
            if old(self).startup_done {
                let i = choose|i: int|
                    0 <= i < old(self).cameras@.len() && (#[trigger] old(self).cameras@[i]) is Some;
                assert(self.cameras@[i] is Some);
            }
        }
        e
    }

    /// Attaches a camera component to an entity.
    pub fn insert_camera(&mut self, e: usize, c: Camera)
        requires
            world_wf(*old(self)),
            e < entity_count(*old(self)),
        ensures
            world_wf(*final(self)),
            final(self).cameras@ == old(self).cameras@.update(e as int, Some(c)),
            *final(self) == (World { cameras: final(self).cameras, ..*old(self) }),
    {
        self.cameras.set(e, Some(c));
        proof {
            assert(self.cameras@[e as int] is Some);
        }
    }

    /// Attaches a model component to an entity; the model must keep
    /// its invariant, as every model built by `Model::assemble` does.
    pub fn insert_model(&mut self, e: usize, m: Model)
        requires
            world_wf(*old(self)),
            e < entity_count(*old(self)),
            model_wf(m),
        ensures
            world_wf(*final(self)),
            final(self).models@ == old(self).models@.update(e as int, Some(m)),
            *final(self) == (World { models: final(self).models, ..*old(self) }),
    {
        self.models.set(e, Some(m));
    }

    /// Attaches a world-transform component to an entity.
    pub fn insert_transform(&mut self, e: usize, t: Transform)
        requires
            world_wf(*old(self)),
            e < entity_count(*old(self)),
        ensures
            world_wf(*final(self)),
            final(self).transforms@ == old(self).transforms@.update(e as int, Some(t)),
            *final(self) == (World { transforms: final(self).transforms, ..*old(self) }),
    {
        self.transforms.set(e, Some(t));
    }

    /// The startup stage's effect on the world: publishes the
    /// pipeline bundle built by the platform layer and spawns the
    /// camera entity.  Runs exactly once, before any frame.
    pub fn complete_startup(&mut self, pipeline: RenderPipeline, camera: Camera)
        requires
            world_wf(*old(self)),
            !old(self).startup_done,
        ensures
            world_wf(*final(self)),
            final(self).startup_done,
            final(self).pipeline == Some(pipeline),
            final(self).cameras@ == old(self).cameras@.push(Some(camera)),
            final(self).models@ == old(self).models@.push(None::<Model>),
            final(self).transforms@ == old(self).transforms@.push(None::<Transform>),
            final(self).count == old(self).count,
            final(self).time == old(self).time,
            final(self).surface_config == old(self).surface_config,
    {
        let e = self.spawn();
        self.insert_camera(e, camera);
        self.pipeline = Some(pipeline);
        self.startup_done = true;
        proof {
            assert(self.cameras@[e as int] is Some);
        }
    }

    /// Applies a window resize: a zero-area size is ignored entirely
    /// (the configuration and the depth buffer keep their old
    /// values), a proper size replaces the surface configuration.
    /// Returns whether the surface must be reconfigured.
    pub fn resize(&mut self, width: u32, height: u32) -> (reconfigure: bool)
        ensures
            reconfigure == (width > 0 && height > 0),
            width == 0 || height == 0 ==> *final(self) == *old(self),
            width > 0 && height > 0 ==> *final(self) == (World {
                surface_config: SurfaceConfig { width, height },
                ..*old(self)
            }),
    {
        if width > 0 && height > 0 {
            self.surface_config = SurfaceConfig { width, height };
            true
        } else {
            false
        }
    }
}

} // verus!
