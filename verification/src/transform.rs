//! The world-transform component and renderable instances.

use vstd::prelude::*;
use crate::fx::{fx_cos, fx_sin, trunc_div, SCALE};
use crate::mat4::{mat4_from_rotation_translation, mat4_identity, Mat4Fx, QuatFx};
use crate::vec3::Vec3Fx;

verus! {

/// A component holding the entity's world matrix: rotation and
/// translation combined.
#[derive(Clone, Copy, Debug, PartialEq, Eq, Structural)]
pub struct Transform {
    pub matrix: Mat4Fx,
}

impl Transform {
    /// The identity placement.
    pub fn new() -> (r: Transform)
        ensures
            r.matrix == mat4_identity(),
    {
        Transform { matrix: Mat4Fx::identity() }
    }

    /// Placement from a rotation quaternion and a translation given
    /// component-wise in micro-units.
    pub fn from_rotation_translation(quat: QuatFx, x: i64, y: i64, z: i64) -> (r: Transform)
        ensures
            r.matrix == mat4_from_rotation_translation(quat, Vec3Fx { x, y, z }),
    {
        Transform { matrix: Mat4Fx::from_rotation_translation(quat, Vec3Fx::new(x, y, z)) }
    }

    /// Placement from an already built matrix.
    pub fn from_mat4(matrix: Mat4Fx) -> (r: Transform)
        ensures
            r.matrix == matrix,
    {
        Transform { matrix }
    }
}

/// A renderable placement: a position and a rotation, kept apart
/// until the shader needs them combined.
#[derive(Clone, Copy, Debug, PartialEq, Eq, Structural)]
pub struct Instance {
    pub position: Vec3Fx,
    pub rotation: QuatFx,
}

/// An instance flattened to the 4x4 matrix shader code consumes.
#[derive(Clone, Copy, Debug, PartialEq, Eq, Structural)]
pub struct InstanceRaw {
    pub matrix: Mat4Fx,
}

impl Instance {
    /// Used to convert an instance into a 4x4 matrix to be used in
    /// shader code.
    pub fn to_raw_instance(&self) -> (r: InstanceRaw)
        ensures
            r.matrix == mat4_from_rotation_translation(self.rotation, self.position),
    {
        InstanceRaw { matrix: Mat4Fx::from_rotation_translation(self.rotation, self.position) }
    }

    /// A fixed ring of placements around the origin, rotated about
    /// each axis by half and quarter turns, for exercising instanced
    /// drawing.
    pub fn raw_test_instances() -> (r: Vec<InstanceRaw>)
        ensures
            r@.len() == 6,
            forall|i: int|
                0 <= i < 6 ==> #[trigger] r@[i].matrix == mat4_from_rotation_translation(
                    test_rotation(i),
                    test_position(i),
                ),
    {
        let quarter: i64 = QUARTER_TAU_INSTANCE;
        let test_instances: [Instance; 6] = [
            Instance {
                position: Vec3Fx::new(0, 0, 2 * SCALE),
                rotation: QuatFx::from_rotation_x(HALF_TAU_INSTANCE),
            },
            Instance {
                position: Vec3Fx::new(2 * SCALE, 0, 0),
                rotation: QuatFx::from_rotation_x(quarter),
            },
            Instance {
                position: Vec3Fx::new(-2 * SCALE, 0, 0),
                rotation: QuatFx::from_rotation_y(HALF_TAU_INSTANCE),
            },
            Instance {
                position: Vec3Fx::new(0, 0, -2 * SCALE),
                rotation: QuatFx::from_rotation_y(quarter),
            },
            Instance {
                position: Vec3Fx::new(2 * SCALE, 0, 2 * SCALE),
                rotation: QuatFx::from_rotation_z(HALF_TAU_INSTANCE),
            },
            Instance {
                position: Vec3Fx::new(-2 * SCALE, 0, -2 * SCALE),
                rotation: QuatFx::from_rotation_z(quarter),
            },
        ];
        let mut out: Vec<InstanceRaw> = Vec::new();
        out.push(test_instances[0].to_raw_instance());
        out.push(test_instances[1].to_raw_instance());
        out.push(test_instances[2].to_raw_instance());
        out.push(test_instances[3].to_raw_instance());
        out.push(test_instances[4].to_raw_instance());
        out.push(test_instances[5].to_raw_instance());
        out
    }
}

/// Half a turn in micro-radians, as the instances use it.
pub const HALF_TAU_INSTANCE: i64 = 3_141_592;

/// A quarter turn in micro-radians.
pub const QUARTER_TAU_INSTANCE: i64 = 1_570_796;

/// The rotation of the fixed test instance at the given slot.
pub open spec fn test_rotation(i: int) -> QuatFx {
    let half: int = HALF_TAU_INSTANCE as int;
    let quarter: int = QUARTER_TAU_INSTANCE as int;
    let s_half = fx_sin(trunc_div(half, 2));
    let c_half = fx_cos(trunc_div(half, 2));
    let s_quarter = fx_sin(trunc_div(quarter, 2));
    let c_quarter = fx_cos(trunc_div(quarter, 2));
    if i == 0 {
        QuatFx { x: s_half as i64, y: 0, z: 0, w: c_half as i64 }
    } else if i == 1 {
        QuatFx { x: s_quarter as i64, y: 0, z: 0, w: c_quarter as i64 }
    } else if i == 2 {
        QuatFx { x: 0, y: s_half as i64, z: 0, w: c_half as i64 }
    } else if i == 3 {
        QuatFx { x: 0, y: s_quarter as i64, z: 0, w: c_quarter as i64 }
    } else if i == 4 {
        QuatFx { x: 0, y: 0, z: s_half as i64, w: c_half as i64 }
    } else {
        QuatFx { x: 0, y: 0, z: s_quarter as i64, w: c_quarter as i64 }
    }
}

/// The position of the fixed test instance at the given slot.
pub open spec fn test_position(i: int) -> Vec3Fx {
    let two: i64 = (2 * SCALE as int) as i64;
    let minus_two: i64 = (-2 * SCALE as int) as i64;
    if i == 0 {
        Vec3Fx { x: 0, y: 0, z: two }
    } else if i == 1 {
        Vec3Fx { x: two, y: 0, z: 0 }
    } else if i == 2 {
        Vec3Fx { x: minus_two, y: 0, z: 0 }
    } else if i == 3 {
        Vec3Fx { x: 0, y: 0, z: minus_two }
    } else if i == 4 {
        Vec3Fx { x: two, y: 0, z: two }
    } else {
        Vec3Fx { x: minus_two, y: 0, z: minus_two }
    }
}

} // verus!
