//! The render system: from the world's current state it decides, per
//! frame, the exact run of GPU commands to submit, or how to react
//! when no surface image could be acquired.
//!
//! The platform layer performs the commands in order inside one
//! render pass, then submits and presents.  The engine mutates no
//! component state while rendering.

use vstd::prelude::*;
use crate::camera::Camera;
use crate::gpu::{AcquireResult, BindGroupId, BufferId, PipelineId};
use crate::mat4::Mat4Fx;
use crate::model::{Material, Mesh, Model};
use crate::transform::Transform;
use crate::world::{world_wf, World};

verus! {

/// One GPU command of a frame.
#[derive(Clone, Copy, Debug, PartialEq, Eq, Structural)]
pub enum RenderCmd {
    /// Bind the compiled pipeline.
    SetPipeline(PipelineId),
    /// Bind the camera uniform's bind group.
    SetCameraBindGroup(BindGroupId),
    /// Bind the world-transform uniform's bind group.
    SetWorldTransformBindGroup(BindGroupId),
    /// Fill the world-transform uniform buffer with an entity's
    /// matrix, before that entity's meshes are drawn.
    WriteWorldTransform(BufferId, Mat4Fx),
    /// Bind the sampling bind group of the material a mesh uses.
    SetMaterialBindGroup(BindGroupId),
    /// One indexed draw of one mesh.
    DrawIndexed { vertex_buffer: BufferId, index_buffer: BufferId, index_count: usize },
    /// Fill the camera uniform buffer with the current
    /// view-projection matrix, after the pass.
    WriteCameraUniform(BufferId, Mat4Fx),
}

/// What the frame comes to, given how surface acquisition went.
#[derive(Debug)]
pub enum RenderAction {
    /// Out of GPU memory: the run must terminate.
    Fatal,
    /// Nothing is drawn this frame; the surface is reconfigured
    /// first when it was lost.  The loop continues.
    Skip { reconfigure: bool },
    /// The commands to perform, in order, then submit and present.
    Draw(Vec<RenderCmd>),
}

/// The two commands that draw one mesh: bind its material, then the
/// indexed draw.
pub open spec fn mesh_pair(mesh: Mesh, materials: Seq<Material>) -> Seq<RenderCmd> {
    seq![
        RenderCmd::SetMaterialBindGroup(materials[mesh.material_index as int].bind_group),
        RenderCmd::DrawIndexed {
            vertex_buffer: mesh.vertex_buffer,
            index_buffer: mesh.index_buffer,
            index_count: mesh.num_vertices,
        },
    ]
}

/// The commands for the first `j` meshes of a model, in order.
pub open spec fn mesh_cmds(meshes: Seq<Mesh>, materials: Seq<Material>, j: int) -> Seq<RenderCmd>
    decreases j,
{
    if j <= 0 {
        Seq::empty()
    } else {
        mesh_cmds(meshes, materials, j - 1) + mesh_pair(meshes[j - 1], materials)
    }
}

/// What one entity contributes: nothing without both a model and a
/// transform; otherwise its transform written to the world-transform
/// buffer, then every mesh drawn.
pub open spec fn entity_cmds(
    om: Option<Model>,
    ot: Option<Transform>,
    world_buffer: BufferId,
) -> Seq<RenderCmd> {
    match (om, ot) {
        (Some(m), Some(t)) => seq![RenderCmd::WriteWorldTransform(world_buffer, t.matrix)]
            + mesh_cmds(m.meshes@, m.materials@, m.meshes@.len() as int),
        _ => Seq::empty(),
    }
}

/// The commands for the first `i` entities, in creation order.
pub open spec fn scene_cmds(
    models: Seq<Option<Model>>,
    transforms: Seq<Option<Transform>>,
    world_buffer: BufferId,
    i: int,
) -> Seq<RenderCmd>
    decreases i,
{
    if i <= 0 {
        Seq::empty()
    } else {
        scene_cmds(models, transforms, world_buffer, i - 1) + entity_cmds(
            models[i - 1],
            transforms[i - 1],
            world_buffer,
        )
    }
}

/// The first camera in entity creation order.
pub open spec fn first_camera(cams: Seq<Option<Camera>>) -> Option<Camera>
    decreases cams.len(),
{
    if cams.len() == 0 {
        None
    } else if cams[0] is Some {
        cams[0]
    } else {
        first_camera(cams.drop_first())
    }
}

/// The whole frame: bind the pipeline and the two uniform bind
/// groups, draw the scene entity by entity, then write the camera's
/// cached view-projection matrix.
pub open spec fn frame_cmds(w: World) -> Seq<RenderCmd> {
    let p = w.pipeline->Some_0;
    let cam = first_camera(w.cameras@)->Some_0;
    seq![
        RenderCmd::SetPipeline(p.wgpu_render_pipeline),
        RenderCmd::SetCameraBindGroup(p.camera_bind_group),
        RenderCmd::SetWorldTransformBindGroup(p.world_transform_bind_group),
    ] + scene_cmds(w.models@, w.transforms@, p.world_transform_buffer, w.models@.len() as int)
        + seq![RenderCmd::WriteCameraUniform(p.camera_buffer, cam.uniform.view_projection)]
}

/// A found camera at the first occupied slot is the first camera.
proof fn lemma_first_camera_at(cams: Seq<Option<Camera>>, i: int)
    requires
        0 <= i < cams.len(),
        cams[i] is Some,
        forall|j: int| 0 <= j < i ==> (#[trigger] cams[j]) is None,
    ensures
        first_camera(cams) == cams[i],
    decreases i,
{
    if i > 0 {
        lemma_first_camera_at(cams.drop_first(), i - 1);
        assert(cams.drop_first()[i - 1] == cams[i]);
    }
}

impl World {
    /// The first camera in entity creation order; startup has
    /// spawned one.
    pub fn active_camera(&self) -> (r: Camera)
        requires
            world_wf(*self),
            self.startup_done,
        ensures
            Some(r) == first_camera(self.cameras@),
    {
        let mut i: usize = 0;
        while i < self.cameras.len()
            invariant
                world_wf(*self),
                self.startup_done,
                i <= self.cameras@.len(),
                forall|j: int| 0 <= j < i ==> (#[trigger] self.cameras@[j]) is None,
            decreases self.cameras@.len() - i,
        {
            match self.cameras[i] {
                Some(c) => {
                    proof {
                        lemma_first_camera_at(self.cameras@, i as int);
                    }
                    return c;
                },
                None => {
                    i = i + 1;
                },
            }
        }
        proof {
            let k = choose|k: int|
                0 <= k < self.cameras@.len() && (#[trigger] self.cameras@[k]) is Some;
            assert(false);
        }
        unreached()
    }

    /// Decides the frame from the acquisition outcome: fatal on
    /// memory exhaustion; a skipped frame, with one surface
    /// reconfigure, when the surface was lost; a plain skipped frame
    /// on a transient failure; and on success the full command run
    /// for the current scene.
    pub fn render_frame(&self, acquire: AcquireResult) -> (r: RenderAction)
        requires
            world_wf(*self),
            self.startup_done,
        ensures
            acquire == AcquireResult::OutOfMemory <==> r is Fatal,
            acquire == AcquireResult::Lost ==> r == (RenderAction::Skip { reconfigure: true }),
            acquire == AcquireResult::Other ==> r == (RenderAction::Skip { reconfigure: false }),
            acquire == AcquireResult::Success ==> (r matches RenderAction::Draw(cmds) && cmds@
                == frame_cmds(*self)),
    {
        match acquire {
            AcquireResult::OutOfMemory => RenderAction::Fatal,
            AcquireResult::Lost => RenderAction::Skip { reconfigure: true },
            AcquireResult::Other => RenderAction::Skip { reconfigure: false },
            AcquireResult::Success => RenderAction::Draw(self.build_frame_commands()),
        }
    }

    /// Builds the command run of `frame_cmds` for the current state.
    fn build_frame_commands(&self) -> (r: Vec<RenderCmd>)
        requires
            world_wf(*self),
            self.startup_done,
        ensures
            r@ == frame_cmds(*self),
    {
        let p = match &self.pipeline {
            Some(p) => p,
            None => {
                proof {
                    assert(false);
                }
                unreached()
            },
        };
        let cam = self.active_camera();
        let mut cmds: Vec<RenderCmd> = Vec::new();
        cmds.push(RenderCmd::SetPipeline(p.wgpu_render_pipeline));
        cmds.push(RenderCmd::SetCameraBindGroup(p.camera_bind_group));
        cmds.push(RenderCmd::SetWorldTransformBindGroup(p.world_transform_bind_group));
        let ghost prologue: Seq<RenderCmd> = cmds@;
        let mut i: usize = 0;
        while i < self.models.len()
            invariant
                world_wf(*self),
                self.startup_done,
                i <= self.models@.len(),
                self.pipeline matches Some(q) && q == *p,
                cmds@ == prologue + scene_cmds(
                    self.models@,
                    self.transforms@,
                    p.world_transform_buffer,
                    i as int,
                ),
            decreases self.models@.len() - i,
        {
            match (&self.models[i], &self.transforms[i]) {
                (Some(m), Some(t)) => {
                    cmds.push(RenderCmd::WriteWorldTransform(p.world_transform_buffer, t.matrix));
                    let ghost entity_base: Seq<RenderCmd> = cmds@;
                    let mut j: usize = 0;
                    while j < m.meshes.len()
                        invariant
                            j <= m.meshes@.len(),
                            crate::model::model_wf(*m),
                            cmds@ == entity_base + mesh_cmds(m.meshes@, m.materials@, j as int),
                        decreases m.meshes@.len() - j,
                    {
                        let mesh = &m.meshes[j];
                        cmds.push(
                            RenderCmd::SetMaterialBindGroup(
                                m.materials[mesh.material_index].bind_group,
                            ),
                        );
                        cmds.push(
                            RenderCmd::DrawIndexed {
                                vertex_buffer: mesh.vertex_buffer,
                                index_buffer: mesh.index_buffer,
                                index_count: mesh.num_vertices,
                            },
                        );
                        j = j + 1;
                    }
                },
                _ => {},
            }
            i = i + 1;
        }
        cmds.push(RenderCmd::WriteCameraUniform(p.camera_buffer, cam.uniform.view_projection));
        proof {
            assert(cmds@ =~= frame_cmds(*self));
        }
        cmds
    }
}

/// How many indexed draws a command run issues.
pub open spec fn count_draws(cmds: Seq<RenderCmd>) -> int
    decreases cmds.len(),
{
    if cmds.len() == 0 {
        0
    } else {
        (if cmds[0] is DrawIndexed {
            1int
        } else {
            0int
        }) + count_draws(cmds.drop_first())
    }
}

/// The world-transform matrices a command run writes, in order.
pub open spec fn world_writes(cmds: Seq<RenderCmd>) -> Seq<Mat4Fx>
    decreases cmds.len(),
{
    if cmds.len() == 0 {
        Seq::empty()
    } else {
        (match cmds[0] {
            RenderCmd::WriteWorldTransform(_, m) => seq![m],
            _ => Seq::empty(),
        }) + world_writes(cmds.drop_first())
    }
}

proof fn lemma_count_draws_concat(a: Seq<RenderCmd>, b: Seq<RenderCmd>)
    ensures
        count_draws(a + b) == count_draws(a) + count_draws(b),
    decreases a.len(),
{
    if a.len() == 0 {
        assert(a + b =~= b);
    } else {
        assert((a + b).drop_first() =~= a.drop_first() + b);
        lemma_count_draws_concat(a.drop_first(), b);
    }
}

proof fn lemma_world_writes_concat(a: Seq<RenderCmd>, b: Seq<RenderCmd>)
    ensures
        world_writes(a + b) == world_writes(a) + world_writes(b),
    decreases a.len(),
{
    if a.len() == 0 {
        assert(a + b =~= b);
        assert(world_writes(a) + world_writes(b) =~= world_writes(b));
    } else {
        assert((a + b).drop_first() =~= a.drop_first() + b);
        lemma_world_writes_concat(a.drop_first(), b);
        assert(world_writes(a + b) =~= world_writes(a) + world_writes(b));
    }
}

proof fn lemma_single_cmd(c: RenderCmd)
    ensures
        count_draws(seq![c]) == if c is DrawIndexed {
            1int
        } else {
            0int
        },
        world_writes(seq![c]) == (match c {
            RenderCmd::WriteWorldTransform(_, m) => seq![m],
            _ => Seq::<Mat4Fx>::empty(),
        }),
{
    reveal_with_fuel(count_draws, 2);
    reveal_with_fuel(world_writes, 2);
    assert(seq![c][0] == c);
    assert(seq![c].drop_first() =~= Seq::<RenderCmd>::empty());
    assert(world_writes(seq![c]) =~= (match c {
        RenderCmd::WriteWorldTransform(_, m) => seq![m],
        _ => Seq::<Mat4Fx>::empty(),
    }));
}

proof fn lemma_mesh_cmds_trace(meshes: Seq<Mesh>, materials: Seq<Material>, j: int)
    requires
        j >= 0,
    ensures
        count_draws(mesh_cmds(meshes, materials, j)) == j,
        world_writes(mesh_cmds(meshes, materials, j)) == Seq::<Mat4Fx>::empty(),
    decreases j,
{
    if j > 0 {
        lemma_mesh_cmds_trace(meshes, materials, j - 1);
        let mesh = meshes[j - 1];
        let pair = mesh_pair(mesh, materials);
        let c0 = RenderCmd::SetMaterialBindGroup(materials[mesh.material_index as int].bind_group);
        let c1 = RenderCmd::DrawIndexed {
            vertex_buffer: mesh.vertex_buffer,
            index_buffer: mesh.index_buffer,
            index_count: mesh.num_vertices,
        };
        assert(pair =~= seq![c0] + seq![c1]);
        lemma_single_cmd(c0);
        lemma_single_cmd(c1);
        lemma_count_draws_concat(seq![c0], seq![c1]);
        lemma_world_writes_concat(seq![c0], seq![c1]);
        lemma_count_draws_concat(mesh_cmds(meshes, materials, j - 1), pair);
        lemma_world_writes_concat(mesh_cmds(meshes, materials, j - 1), pair);
        assert(count_draws(pair) == 1);
        assert(world_writes(pair) =~= Seq::<Mat4Fx>::empty());
    }
}

/// The matrices of the first `i` entities that carry both a model
/// and a transform, in creation order.
pub open spec fn visible_transforms(
    models: Seq<Option<Model>>,
    transforms: Seq<Option<Transform>>,
    i: int,
) -> Seq<Mat4Fx>
    decreases i,
{
    if i <= 0 {
        Seq::empty()
    } else {
        visible_transforms(models, transforms, i - 1) + (match (models[i - 1], transforms[i - 1]) {
            (Some(m), Some(t)) => seq![t.matrix],
            _ => Seq::empty(),
        })
    }
}

/// How many meshes the first `i` entities that carry both a model
/// and a transform hold in all.
pub open spec fn scene_draw_count(
    models: Seq<Option<Model>>,
    transforms: Seq<Option<Transform>>,
    i: int,
) -> int
    decreases i,
{
    if i <= 0 {
        0
    } else {
        scene_draw_count(models, transforms, i - 1) + (match (models[i - 1], transforms[i - 1]) {
            (Some(m), Some(t)) => m.meshes@.len() as int,
            _ => 0int,
        })
    }
}

proof fn lemma_scene_cmds_trace(
    models: Seq<Option<Model>>,
    transforms: Seq<Option<Transform>>,
    world_buffer: BufferId,
    i: int,
)
    requires
        i >= 0,
    ensures
        count_draws(scene_cmds(models, transforms, world_buffer, i)) == scene_draw_count(
            models,
            transforms,
            i,
        ),
        world_writes(scene_cmds(models, transforms, world_buffer, i)) == visible_transforms(
            models,
            transforms,
            i,
        ),
    decreases i,
{
    if i > 0 {
        lemma_scene_cmds_trace(models, transforms, world_buffer, i - 1);
        let head = scene_cmds(models, transforms, world_buffer, i - 1);
        let tail = entity_cmds(models[i - 1], transforms[i - 1], world_buffer);
        lemma_count_draws_concat(head, tail);
        lemma_world_writes_concat(head, tail);
        match (models[i - 1], transforms[i - 1]) {
            (Some(m), Some(t)) => {
                let body = mesh_cmds(m.meshes@, m.materials@, m.meshes@.len() as int);
                let write = seq![RenderCmd::WriteWorldTransform(world_buffer, t.matrix)];
                lemma_mesh_cmds_trace(m.meshes@, m.materials@, m.meshes@.len() as int);
                lemma_single_cmd(RenderCmd::WriteWorldTransform(world_buffer, t.matrix));
                lemma_count_draws_concat(write, body);
                lemma_world_writes_concat(write, body);
                assert(world_writes(write) =~= seq![t.matrix]);
                assert(world_writes(tail) =~= seq![t.matrix]);
                assert(visible_transforms(models, transforms, i) =~= visible_transforms(
                    models,
                    transforms,
                    i - 1,
                ) + seq![t.matrix]);
            },
            _ => {
                assert(world_writes(tail) =~= Seq::<Mat4Fx>::empty());
                assert(visible_transforms(models, transforms, i) =~= visible_transforms(
                    models,
                    transforms,
                    i - 1,
                ));
            },
        }
        assert(world_writes(scene_cmds(models, transforms, world_buffer, i))
            =~= visible_transforms(models, transforms, i));
    }
}

/// Law of the frame trace: a successful frame issues exactly one
/// indexed draw per mesh of each entity that carries both a model
/// and a transform, and the world-transform uniform writes are
/// exactly those entities' matrices, one before each entity's
/// meshes, in entity creation order.
pub proof fn lemma_frame_trace(w: World)
    requires
        world_wf(w),
        w.startup_done,
    ensures
        count_draws(frame_cmds(w)) == scene_draw_count(
            w.models@,
            w.transforms@,
            w.models@.len() as int,
        ),
        world_writes(frame_cmds(w)) == visible_transforms(
            w.models@,
            w.transforms@,
            w.models@.len() as int,
        ),
{
    let p = w.pipeline->Some_0;
    let cam = first_camera(w.cameras@)->Some_0;
    let c0 = RenderCmd::SetPipeline(p.wgpu_render_pipeline);
    let c1 = RenderCmd::SetCameraBindGroup(p.camera_bind_group);
    let c2 = RenderCmd::SetWorldTransformBindGroup(p.world_transform_bind_group);
    let c3 = RenderCmd::WriteCameraUniform(p.camera_buffer, cam.uniform.view_projection);
    let prologue = seq![c0, c1, c2];
    let scene = scene_cmds(w.models@, w.transforms@, p.world_transform_buffer, w.models@.len() as int);
    let epilogue = seq![c3];
    lemma_scene_cmds_trace(w.models@, w.transforms@, p.world_transform_buffer, w.models@.len() as int);
    lemma_single_cmd(c0);
    lemma_single_cmd(c1);
    lemma_single_cmd(c2);
    lemma_single_cmd(c3);
    assert(prologue =~= seq![c0] + seq![c1] + seq![c2]);
    lemma_count_draws_concat(seq![c0], seq![c1]);
    lemma_count_draws_concat(seq![c0] + seq![c1], seq![c2]);
    lemma_world_writes_concat(seq![c0], seq![c1]);
    lemma_world_writes_concat(seq![c0] + seq![c1], seq![c2]);
    lemma_count_draws_concat(prologue, scene);
    lemma_count_draws_concat(prologue + scene, epilogue);
    lemma_world_writes_concat(prologue, scene);
    lemma_world_writes_concat(prologue + scene, epilogue);
    assert(count_draws(prologue) == 0);
    assert(count_draws(epilogue) == 0);
    assert(world_writes(prologue) =~= Seq::<Mat4Fx>::empty());
    assert(world_writes(epilogue) =~= Seq::<Mat4Fx>::empty());
    assert(world_writes(frame_cmds(w)) =~= visible_transforms(
        w.models@,
        w.transforms@,
        w.models@.len() as int,
    ));
}

} // verus!
