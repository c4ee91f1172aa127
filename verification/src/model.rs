//! The model component: meshes with device-resident buffers, and
//! materials with their textures and bind groups.

use vstd::prelude::*;
use crate::gpu::{BindGroupId, BufferId, TextureId};

verus! {

/// One mesh of a model: its buffers, how many indices to draw, and
/// which of the model's materials it samples.
#[derive(Debug)]
pub struct Mesh {
    pub name: String,
    pub vertex_buffer: BufferId,
    pub index_buffer: BufferId,
    pub num_vertices: usize,
    pub material_index: usize,
}

/// One material of a model: its texture and the bind group that
/// exposes it to the shader.
#[derive(Debug)]
pub struct Material {
    pub name: String,
    pub texture: TextureId,
    pub bind_group: BindGroupId,
}

/// A loaded model: an ordered run of meshes and one of materials.
#[derive(Debug)]
pub struct Model {
    pub meshes: Vec<Mesh>,
    pub materials: Vec<Material>,
}

/// The model invariant: every mesh's material index names one of the
/// model's materials.
pub open spec fn model_wf(m: Model) -> bool {
    forall|i: int|
        0 <= i < m.meshes@.len() ==> #[trigger] m.meshes@[i].material_index < m.materials@.len()
}

/// Ways of reading a model source; OBJ is the one implemented today.
#[derive(Clone, Copy, Debug, PartialEq, Eq, Structural)]
pub enum ModelLoadType {
    OBJ,
}

/// Loading failed: the source could not be read or described a model
/// that breaks the model invariant.
#[derive(Clone, Copy, Debug, PartialEq, Eq, Structural)]
pub struct ModelLoadError;

impl ModelLoadError {
    /// What went wrong, for a log line.
    pub fn message(&self) -> (r: &'static str) {
        "Unable to load model"
    }
}

impl Model {
    /// Assembles a model from loader output, accepting it exactly
    /// when every mesh's material index is in range.
    pub fn assemble(meshes: Vec<Mesh>, materials: Vec<Material>) -> (r: Result<
        Model,
        ModelLoadError,
    >)
        ensures
            r is Ok <==> (forall|i: int|
                0 <= i < meshes@.len() ==> #[trigger] meshes@[i].material_index
                    < materials@.len()),
            r matches Ok(m) ==> m.meshes@ == meshes@ && m.materials@ == materials@ && model_wf(m),
    {
        let mut i: usize = 0;
        while i < meshes.len()
            invariant
                i <= meshes.len(),
                forall|j: int|
                    0 <= j < i ==> #[trigger] meshes@[j].material_index < materials@.len(),
            decreases meshes.len() - i,
        {
            if meshes[i].material_index >= materials.len() {
                return Err(ModelLoadError);
            }
            i = i + 1;
        }
        Ok(Model { meshes, materials })
    }
}

} // verus!
