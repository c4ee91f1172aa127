use rendercore::camera::{Camera, CameraUniform};
use rendercore::fx::SCALE;
use rendercore::gpu::{
    AcquireResult, BindGroupId, BindGroupLayoutId, BufferId, DepthTexture, PipelineId,
    RenderPipeline, SurfaceConfig, TextureId,
};
use rendercore::input::{ElementState, KeyCode, KeyboardInput};
use rendercore::mat4::Mat4Fx;
use rendercore::model::{Material, Mesh, Model, ModelLoadError};
use rendercore::render::{RenderAction, RenderCmd};
use rendercore::systems;
use rendercore::transform::Transform;
use rendercore::vec3::Vec3Fx;
use rendercore::world::World;

fn demo_pipeline() -> RenderPipeline {
    RenderPipeline {
        wgpu_render_pipeline: PipelineId { id: 1 },
        diffuse_bind_group_layout: BindGroupLayoutId { id: 2 },
        depth_texture: DepthTexture { texture: TextureId { id: 3 }, width: 800, height: 600 },
        camera_bind_group_layout: BindGroupLayoutId { id: 4 },
        camera_buffer: BufferId { id: 5 },
        camera_bind_group: BindGroupId { id: 6 },
        world_transform_bind_group_layout: BindGroupLayoutId { id: 7 },
        world_transform_buffer: BufferId { id: 8 },
        world_transform_bind_group: BindGroupId { id: 9 },
    }
}

fn demo_camera() -> Camera {
    Camera {
        eye: Vec3Fx::new(0, SCALE, 2 * SCALE),
        target: Vec3Fx::new(0, 0, 0),
        up: Vec3Fx::new(0, SCALE, 0),
        aspect: 1_333_333,
        fov_y: 45 * SCALE,
        z_near: 100_000,
        z_far: 100 * SCALE,
        uniform: CameraUniform::new(),
        speed: 10 * SCALE,
    }
}

fn one_mesh_model(tag: u64) -> Model {
    let mesh = Mesh {
        name: format!("mesh-{}", tag),
        vertex_buffer: BufferId { id: 100 + tag },
        index_buffer: BufferId { id: 200 + tag },
        num_vertices: 36,
        material_index: 0,
    };
    let material = Material {
        name: format!("mat-{}", tag),
        texture: TextureId { id: 300 + tag },
        bind_group: BindGroupId { id: 400 + tag },
    };
    Model::assemble(vec![mesh], vec![material]).unwrap()
}

fn started_world() -> World {
    let mut w = World::new(0, SurfaceConfig::new(800, 600));
    w.complete_startup(demo_pipeline(), demo_camera());
    w
}

fn translation(x: i64) -> Transform {
    let mut m = Mat4Fx::identity();
    m.w_axis.x = x;
    Transform::from_mat4(m)
}

#[test]
fn three_entities_issue_three_draws_in_creation_order() {
    let mut w = started_world();
    for k in 0..3u64 {
        let e = w.spawn();
        w.insert_model(e, one_mesh_model(k));
        w.insert_transform(e, translation((k as i64 + 1) * SCALE));
    }
    let action = w.render_frame(AcquireResult::Success);
    let cmds = match action {
        RenderAction::Draw(cmds) => cmds,
        _ => panic!("expected a draw"),
    };
    let draws: Vec<&RenderCmd> = cmds
        .iter()
        .filter(|c| matches!(c, RenderCmd::DrawIndexed { .. }))
        .collect();
    assert_eq!(draws.len(), 3);
    let writes: Vec<i64> = cmds
        .iter()
        .filter_map(|c| match c {
            RenderCmd::WriteWorldTransform(_, m) => Some(m.w_axis.x),
            _ => None,
        })
        .collect();
    assert_eq!(writes, vec![SCALE, 2 * SCALE, 3 * SCALE]);
    // each write comes right before its entity's draw
    let first_write = cmds
        .iter()
        .position(|c| matches!(c, RenderCmd::WriteWorldTransform(..)))
        .unwrap();
    assert!(matches!(cmds[first_write + 1], RenderCmd::SetMaterialBindGroup(_)));
    assert!(matches!(cmds[first_write + 2], RenderCmd::DrawIndexed { .. }));
}

#[test]
fn entity_without_transform_is_not_drawn() {
    let mut w = started_world();
    let e = w.spawn();
    w.insert_model(e, one_mesh_model(7));
    let action = w.render_frame(AcquireResult::Success);
    let cmds = match action {
        RenderAction::Draw(cmds) => cmds,
        _ => panic!("expected a draw"),
    };
    assert!(cmds.iter().all(|c| !matches!(c, RenderCmd::DrawIndexed { .. })));
}

#[test]
fn lost_surface_reconfigures_once_and_draws_nothing() {
    let w = started_world();
    match w.render_frame(AcquireResult::Lost) {
        RenderAction::Skip { reconfigure } => assert!(reconfigure),
        _ => panic!("a lost surface must skip the frame, not end the run"),
    }
}

#[test]
fn transient_failure_skips_without_reconfigure() {
    let w = started_world();
    match w.render_frame(AcquireResult::Other) {
        RenderAction::Skip { reconfigure } => assert!(!reconfigure),
        _ => panic!("a transient failure only skips the frame"),
    }
}

#[test]
fn out_of_memory_is_fatal() {
    let w = started_world();
    assert!(matches!(w.render_frame(AcquireResult::OutOfMemory), RenderAction::Fatal));
}

#[test]
fn zero_area_resize_changes_nothing() {
    let mut w = started_world();
    let config_before = w.surface_config;
    let depth_before = w.pipeline.unwrap().depth_texture;
    assert!(!w.resize(0, 480));
    assert!(!w.resize(640, 0));
    assert_eq!(w.surface_config, config_before);
    assert_eq!(w.pipeline.unwrap().depth_texture, depth_before);
}

#[test]
fn proper_resize_updates_configuration() {
    let mut w = started_world();
    let depth_before = w.pipeline.unwrap().depth_texture;
    assert!(w.resize(1024, 768));
    assert_eq!(w.surface_config, SurfaceConfig::new(1024, 768));
    assert_eq!(w.pipeline.unwrap().depth_texture, depth_before);
}

#[test]
fn invalid_material_index_is_rejected() {
    let mesh = Mesh {
        name: String::from("m"),
        vertex_buffer: BufferId { id: 1 },
        index_buffer: BufferId { id: 2 },
        num_vertices: 3,
        material_index: 1,
    };
    let material = Material {
        name: String::from("only"),
        texture: TextureId { id: 3 },
        bind_group: BindGroupId { id: 4 },
    };
    let r = Model::assemble(vec![mesh], vec![material]);
    assert!(r.is_err());
    assert_eq!(ModelLoadError.message(), "Unable to load model");
}

#[test]
fn frame_counter_saturates() {
    let mut w = started_world();
    w.count.0 = u64::MAX;
    systems::counter(&mut w);
    assert_eq!(w.count.0, u64::MAX);
    w.count.0 = 41;
    systems::counter(&mut w);
    assert_eq!(w.count.0, 42);
}

#[test]
fn simulate_moves_camera_from_queued_press() {
    let mut w = started_world();
    w.key_events.send(KeyboardInput {
        scan_code: 17,
        key_code: Some(KeyCode::W),
        state: ElementState::Pressed,
    });
    systems::frame_simulate(&mut w, 100_000);
    assert_eq!(w.time.delta_us, 100_000);
    assert_eq!(w.count.0, 1);
    assert_eq!(w.key_events.pending.len(), 0);
    assert_eq!(w.key_events.current.len(), 1);
    let cam = w.cameras[0].unwrap();
    // one forward press with delta 0.1 s and speed 10: eye advances
    // 1.0 toward the target, as in the single-camera movement test
    let inv_len = 1.0 / 5.0f64.sqrt();
    let expected_y = 1.0 - inv_len;
    assert!((cam.eye.y as f64 / 1.0e6 - expected_y).abs() < 1.0e-5);
    assert_eq!(cam.uniform.view_projection, cam.build_view_projection_matrix());
}

#[test]
fn release_events_do_not_move_the_camera() {
    let mut w = started_world();
    let eye_before = w.cameras[0].unwrap().eye;
    w.key_events.send(KeyboardInput {
        scan_code: 17,
        key_code: Some(KeyCode::W),
        state: ElementState::Released,
    });
    systems::frame_simulate(&mut w, 100_000);
    assert_eq!(w.cameras[0].unwrap().eye, eye_before);
}

#[test]
fn run_frame_simulates_then_renders() {
    let mut w = started_world();
    let action = systems::run_frame(&mut w, 50_000, AcquireResult::Success);
    assert!(matches!(action, RenderAction::Draw(_)));
    assert_eq!(w.count.0, 1);
    let fatal = systems::run_frame(&mut w, 60_000, AcquireResult::OutOfMemory);
    assert!(matches!(fatal, RenderAction::Fatal));
}

#[test]
fn test_instances_cover_six_placements() {
    let raws = rendercore::transform::Instance::raw_test_instances();
    assert_eq!(raws.len(), 6);
    // the first placement translates two units along positive z
    assert_eq!(raws[0].matrix.w_axis.x, 0);
    assert_eq!(raws[0].matrix.w_axis.z, 2 * SCALE);
}
