//! The camera component and its per-frame update: movement from the
//! queued key events, then the cached view-projection matrix.

use vstd::prelude::*;
use crate::fx::{fx_mul, mul_fx};
use crate::input::KeyCode;
use crate::mat4::{mat4_identity, mat4_look_at_rh, mat4_mul, mat4_perspective_rh, Mat4Fx};
use crate::vec3::{v3_add, v3_cross, v3_normalize, v3_scale, v3_sub, Vec3Fx};

verus! {

/// The cached view-projection matrix, in the layout the shader's
/// camera uniform expects.
#[derive(Clone, Copy, Debug, PartialEq, Eq, Structural)]
pub struct CameraUniform {
    pub view_projection: Mat4Fx,
}

/// The camera component: where it stands and looks, the projection
/// parameters, its movement speed, and the cached matrix.
///
/// Positions are in micro-units, angles in micro-radians, and the
/// speed in micro-units per second.
#[derive(Clone, Copy, Debug, PartialEq, Eq, Structural)]
pub struct Camera {
    pub eye: Vec3Fx,
    pub target: Vec3Fx,
    pub up: Vec3Fx,
    pub aspect: i64,
    pub fov_y: i64,
    pub z_near: i64,
    pub z_far: i64,
    pub uniform: CameraUniform,
    pub speed: i64,
}

/// The view-projection matrix of a camera state: perspective
/// projection times look-at view.
pub open spec fn camera_vp(c: Camera) -> Mat4Fx {
    mat4_mul(
        mat4_perspective_rh(c.fov_y as int, c.aspect as int, c.z_near as int, c.z_far as int),
        mat4_look_at_rh(c.eye, c.target, c.up),
    )
}

/// Where one movement key puts the eye: a step along the freshly
/// normalized forward direction for W and S, along the normalized
/// right direction (forward crossed with up) for A and D, and nowhere
/// for the fallback key.
pub open spec fn move_one(eye: Vec3Fx, target: Vec3Fx, up: Vec3Fx, step: int, key: KeyCode) -> Vec3Fx {
    let forward = v3_normalize(v3_sub(target, eye));
    match key {
        KeyCode::W => v3_add(eye, v3_scale(forward, step)),
        KeyCode::S => v3_sub(eye, v3_scale(forward, step)),
        KeyCode::A => v3_sub(eye, v3_scale(v3_normalize(v3_cross(forward, up)), step)),
        KeyCode::D => v3_add(eye, v3_scale(v3_normalize(v3_cross(forward, up)), step)),
        KeyCode::Return => eye,
    }
}

/// The eye after a queue of movement keys, applied in queue order;
/// each step re-derives the camera frame from the eye the previous
/// step produced.
pub open spec fn eye_after(
    eye: Vec3Fx,
    target: Vec3Fx,
    up: Vec3Fx,
    step: int,
    keys: Seq<KeyCode>,
) -> Vec3Fx
    decreases keys.len(),
{
    if keys.len() == 0 {
        eye
    } else {
        eye_after(move_one(eye, target, up, step, keys[0]), target, up, step, keys.drop_first())
    }
}

/// Appending one key to a queue moves the eye the queue produced.
pub proof fn lemma_eye_after_snoc(
    eye: Vec3Fx,
    target: Vec3Fx,
    up: Vec3Fx,
    step: int,
    keys: Seq<KeyCode>,
    k: KeyCode,
)
    ensures
        eye_after(eye, target, up, step, keys.push(k)) == move_one(
            eye_after(eye, target, up, step, keys),
            target,
            up,
            step,
            k,
        ),
    decreases keys.len(),
{
    if keys.len() == 0 {
        assert(keys.push(k)[0] == k);
        assert(keys.push(k).drop_first() =~= Seq::<KeyCode>::empty());
        assert(eye_after(eye, target, up, step, keys.push(k)) == eye_after(
            move_one(eye, target, up, step, k),
            target,
            up,
            step,
            Seq::<KeyCode>::empty(),
        ));
        assert(eye_after(move_one(eye, target, up, step, k), target, up, step, Seq::<
            KeyCode,
        >::empty()) == move_one(eye, target, up, step, k));
        assert(eye_after(eye, target, up, step, keys) == eye);
    } else {
        assert(keys.push(k)[0] == keys[0]);
        assert(keys.push(k).drop_first() =~= keys.drop_first().push(k));
        assert(eye_after(eye, target, up, step, keys.push(k)) == eye_after(
            move_one(eye, target, up, step, keys[0]),
            target,
            up,
            step,
            keys.drop_first().push(k),
        ));
        lemma_eye_after_snoc(
            move_one(eye, target, up, step, keys[0]),
            target,
            up,
            step,
            keys.drop_first(),
            k,
        );
        assert(eye_after(eye, target, up, step, keys) == eye_after(
            move_one(eye, target, up, step, keys[0]),
            target,
            up,
            step,
            keys.drop_first(),
        ));
    }
}

/// What one camera update does: move the eye by each queued key with
/// a step of speed times delta, then recompute the cached matrix from
/// the state that results.
pub open spec fn spec_update(c: Camera, keys: Seq<KeyCode>, delta: int) -> Camera {
    let stepped = Camera {
        eye: eye_after(c.eye, c.target, c.up, fx_mul(c.speed as int, delta), keys),
        ..c
    };
    Camera { uniform: CameraUniform { view_projection: camera_vp(stepped) }, ..stepped }
}

impl Camera {
    /// The view-projection matrix of the current state.
    pub fn build_view_projection_matrix(&self) -> (r: Mat4Fx)
        ensures
            r == camera_vp(*self),
    {
        let view = Mat4Fx::look_at_rh(self.eye, self.target, self.up);
        let projection = Mat4Fx::perspective_rh(self.fov_y, self.aspect, self.z_near, self.z_far);
        projection.mul(&view)
    }

    /// Applies the queued movement keys in order, with the step
    /// magnitude speed times delta (delta in micro-units of a
    /// second), then stores the recomputed view-projection matrix.
    #[verifier::rlimit(40)]
    pub fn update(&mut self, key_inputs: &Vec<KeyCode>, delta: i64)
        ensures
            *final(self) == spec_update(*old(self), key_inputs@, delta as int),
            final(self).eye == eye_after(
                old(self).eye,
                old(self).target,
                old(self).up,
                fx_mul(old(self).speed as int, delta as int),
                key_inputs@,
            ),
            final(self).target == old(self).target,
            final(self).up == old(self).up,
    {
        let step = mul_fx(self.speed, delta);
        let mut i: usize = 0;
        while i < key_inputs.len()
            invariant
                i <= key_inputs.len(),
                step as int == fx_mul(old(self).speed as int, delta as int),
                self.eye == eye_after(
                    old(self).eye,
                    old(self).target,
                    old(self).up,
                    step as int,
                    key_inputs@.take(i as int),
                ),
                self.target == old(self).target,
                self.up == old(self).up,
                self.aspect == old(self).aspect,
                self.fov_y == old(self).fov_y,
                self.z_near == old(self).z_near,
                self.z_far == old(self).z_far,
                self.speed == old(self).speed,
                self.uniform == old(self).uniform,
            decreases key_inputs.len() - i,
        {
            let key = key_inputs[i];
            let forward = self.target.sub(self.eye).normalize();
            let next_eye = match key {
                KeyCode::W => self.eye.add(forward.scale(step)),
                KeyCode::S => self.eye.sub(forward.scale(step)),
                KeyCode::A => self.eye.sub(forward.cross(self.up).normalize().scale(step)),
                KeyCode::D => self.eye.add(forward.cross(self.up).normalize().scale(step)),
                KeyCode::Return => self.eye,
            };
            proof {
                lemma_eye_after_snoc(
                    old(self).eye,
                    old(self).target,
                    old(self).up,
                    step as int,
                    key_inputs@.take(i as int),
                    key_inputs@[i as int],
                );
                assert(key_inputs@.take(i as int).push(key_inputs@[i as int]) =~= key_inputs@.take(
                    i as int + 1,
                ));
            }
            self.eye = next_eye;
            i = i + 1;
        }
        proof {
            assert(key_inputs@.take(key_inputs@.len() as int) =~= key_inputs@);
        }
        self.uniform.view_projection = self.build_view_projection_matrix();
    }
}

impl CameraUniform {
    /// The identity matrix, the value the camera uniform buffer is
    /// first filled with.
    pub fn new() -> (r: CameraUniform)
        ensures
            r.view_projection == mat4_identity(),
    {
        CameraUniform { view_projection: Mat4Fx::identity() }
    }

    /// Stores the matrix of the given camera state.
    pub fn update_view_projection(&mut self, camera: &Camera)
        ensures
            final(self).view_projection == camera_vp(*camera),
    {
        self.view_projection = camera.build_view_projection_matrix();
    }
}

/// Idempotence of an idle update: with no queued keys and a zero
/// delta, an update whose cached matrix was already consistent leaves
/// the camera exactly as it was — eye, target, and matrix included.
pub proof fn lemma_update_idle(c: Camera)
    requires
        c.uniform.view_projection == camera_vp(c),
    ensures
        spec_update(c, Seq::<KeyCode>::empty(), 0) == c,
{
    let stepped = Camera { eye: eye_after(c.eye, c.target, c.up, fx_mul(c.speed as int, 0), Seq::<
        KeyCode,
    >::empty()), ..c };
    assert(stepped == c);
}

} // verus!
