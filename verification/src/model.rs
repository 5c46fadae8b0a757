//! Models: what the planner has to know about a mesh set that lives on the
//! GPU, and how decoded mesh data becomes vertex buffers.

use vstd::prelude::*;
use crate::instancing::{InstanceData, InstanceRange};
use crate::vertex::{packed, InputStepMode, VertexAttributeDescriptor, VertexBuffer, VertexFormat};
use crate::words::{Vector2, Vector3};

verus! {

/// Bytes that one instance occupies in an instance buffer: one 4x4 matrix.
pub const INSTANCE_SIZE: u64 = 64;

/// Bytes of the instance buffer of a model.
pub const INSTANCE_BUFFER_SIZE: u64 = 16_000;

/// Instances that fit into the instance buffer of a model.
pub const INSTANCE_BUFFER_LEN: u32 = 250;

/// Words of one [`MeshVertex`].
pub const MESH_VERTEX_WORDS: usize = 8;

/// One vertex of a mesh.
#[derive(Clone, Copy, Debug, PartialEq, Eq, Structural)]
pub struct MeshVertex {
    pub position: Vector3,
    pub normal: Vector3,
    pub tex_coords: Vector2,
}

impl MeshVertex {
    /// The eight words of the vertex in buffer order.
    pub open spec fn words(self) -> Seq<u32> {
        self.position.words() + self.normal.words() + self.tex_coords.words()
    }
}

impl VertexBuffer for MeshVertex {
    open spec fn attributes() -> Seq<VertexAttributeDescriptor> {
        seq![
            VertexAttributeDescriptor { offset: 0, format: VertexFormat::Float3, shader_location: 0 },
            VertexAttributeDescriptor { offset: 12, format: VertexFormat::Float3, shader_location: 1 },
            VertexAttributeDescriptor { offset: 24, format: VertexFormat::Float2, shader_location: 2 },
        ]
    }

    open spec fn stride() -> nat {
        32
    }

    open spec fn step_mode() -> InputStepMode {
        InputStepMode::Vertex
    }

    proof fn lemma_packed() {
    }

    fn get_attributes() -> (attributes: Vec<VertexAttributeDescriptor>) {
        let mut attributes: Vec<VertexAttributeDescriptor> = Vec::new();
        attributes.push(VertexAttributeDescriptor { offset: 0, format: VertexFormat::Float3, shader_location: 0 });
        attributes.push(
            VertexAttributeDescriptor { offset: 12, format: VertexFormat::Float3, shader_location: 1 },
        );
        attributes.push(
            VertexAttributeDescriptor { offset: 24, format: VertexFormat::Float2, shader_location: 2 },
        );
        assert(attributes@ =~= Self::attributes());
        attributes
    }
}

/// The four rows of the model matrix follow the attributes of the mesh.
impl VertexBuffer for InstanceData {
    open spec fn attributes() -> Seq<VertexAttributeDescriptor> {
        seq![
            VertexAttributeDescriptor { offset: 0, format: VertexFormat::Float4, shader_location: 3 },
            VertexAttributeDescriptor { offset: 16, format: VertexFormat::Float4, shader_location: 4 },
            VertexAttributeDescriptor { offset: 32, format: VertexFormat::Float4, shader_location: 5 },
            VertexAttributeDescriptor { offset: 48, format: VertexFormat::Float4, shader_location: 6 },
        ]
    }

    open spec fn stride() -> nat {
        INSTANCE_SIZE as nat
    }

    open spec fn step_mode() -> InputStepMode {
        InputStepMode::Instance
    }

    proof fn lemma_packed() {
    }

    fn get_attributes() -> (attributes: Vec<VertexAttributeDescriptor>) {
        let mut attributes: Vec<VertexAttributeDescriptor> = Vec::new();
        attributes.push(VertexAttributeDescriptor { offset: 0, format: VertexFormat::Float4, shader_location: 3 });
        attributes.push(
            VertexAttributeDescriptor { offset: 16, format: VertexFormat::Float4, shader_location: 4 },
        );
        attributes.push(
            VertexAttributeDescriptor { offset: 32, format: VertexFormat::Float4, shader_location: 5 },
        );
        attributes.push(
            VertexAttributeDescriptor { offset: 48, format: VertexFormat::Float4, shader_location: 6 },
        );
        assert(attributes@ =~= Self::attributes());
        attributes
    }
}

/// One mesh of a model.
#[derive(Clone, Copy, Debug, PartialEq, Eq, Structural)]
pub struct Mesh {
    /// Index into the materials of the model.
    pub material: usize,
    /// Number of indices that one draw of the mesh reads.
    pub num_indexes: u32,
}

/// The two texture files of a material.
#[derive(Clone, Debug)]
pub struct Material {
    pub diffuse_texture: String,
    pub specular_texture: String,
}

/// A model resident on the GPU, as the planner sees it.
#[derive(Clone, Debug)]
pub struct Model {
    /// Number of instances that fit into the instance buffer of the model.
    pub instance_capacity: u32,
    pub meshes: Vec<Mesh>,
    pub materials: Vec<Material>,
}

/// One indexed draw of one mesh of a model: indices `0..num_indexes`, from
/// vertex 0, once for each instance of the range.
#[derive(Clone, Copy, Debug, PartialEq, Eq, Structural)]
pub struct MeshDraw {
    /// The mesh, by its place in the model.
    pub mesh: usize,
    /// The material whose textures are bound, `None` for an untextured draw.
    pub material: Option<usize>,
    pub num_indexes: u32,
    pub instances: InstanceRange,
}

/// The draw of mesh number `i` of a model.
pub open spec fn mesh_draw(model: Model, i: int, instances: InstanceRange, textured: bool) -> MeshDraw {
    MeshDraw {
        mesh: i as usize,
        material: if textured {
            Some(model.meshes@[i].material)
        } else {
            None
        },
        num_indexes: model.meshes@[i].num_indexes,
        instances,
    }
}

/// A mesh as a decoder delivers it: flat arrays, three words for each
/// position and normal, two for each texture coordinate.
pub struct RawMesh {
    pub positions: Vec<u32>,
    pub normals: Vec<u32>,
    pub texcoords: Vec<u32>,
    pub indices: Vec<u32>,
    pub material_id: Option<usize>,
}

/// Why decoded data does not make a model.
#[derive(Clone, Copy, Debug, PartialEq, Eq, Structural)]
pub enum ModelError {
    /// Mesh number `mesh` has fewer normals or texture coordinates than
    /// positions.
    MissingAttributes { mesh: usize },
    /// Mesh number `mesh` has more indices than a draw can count.
    TooManyIndices { mesh: usize },
    /// Mesh number `mesh` names a material that the model does not have.
    UnknownMaterial { mesh: usize },
}

/// The number of vertices of a raw mesh.
pub open spec fn vertex_count(mesh: RawMesh) -> int {
    mesh.positions@.len() as int / 3
}

/// Vertex number `i` of a raw mesh.
pub open spec fn vertex_at(mesh: RawMesh, i: int) -> MeshVertex {
    MeshVertex {
        position: Vector3 {
            x: mesh.positions@[3 * i],
            y: mesh.positions@[3 * i + 1],
            z: mesh.positions@[3 * i + 2],
        },
        normal: Vector3 { x: mesh.normals@[3 * i], y: mesh.normals@[3 * i + 1], z: mesh.normals@[3 * i + 2] },
        tex_coords: Vector2 { x: mesh.texcoords@[2 * i], y: mesh.texcoords@[2 * i + 1] },
    }
}

/// The material of a raw mesh: the first where it names none.
pub open spec fn material_of(mesh: RawMesh) -> usize {
    match mesh.material_id {
        Some(material) => material,
        None => 0,
    }
}

/// What is wrong with raw mesh number `at`, if anything.
pub open spec fn mesh_error(mesh: RawMesh, materials: int, at: usize) -> Option<ModelError> {
    if mesh.normals@.len() < 3 * vertex_count(mesh) || mesh.texcoords@.len() < 2 * vertex_count(mesh) {
        Some(ModelError::MissingAttributes { mesh: at })
    } else if mesh.indices@.len() > u32::MAX {
        Some(ModelError::TooManyIndices { mesh: at })
    } else if material_of(mesh) >= materials {
        Some(ModelError::UnknownMaterial { mesh: at })
    } else {
        None
    }
}

/// That none of the first `n` raw meshes has anything wrong.
pub open spec fn sound(meshes: Seq<RawMesh>, materials: int, n: int) -> bool {
    forall|i: int| 0 <= i < n ==> mesh_error(#[trigger] meshes[i], materials, i as usize) is None
}

/// The material that is stored for a decoded one: a material without a
/// specular texture uses its diffuse texture for both.
pub open spec fn stored_material(material: Material) -> Material {
    Material {
        diffuse_texture: material.diffuse_texture,
        specular_texture: if material.specular_texture@.len() == 0 {
            material.diffuse_texture
        } else {
            material.specular_texture
        },
    }
}

impl RawMesh {
    /// The vertices of the mesh, interleaved for the vertex buffer.
    pub fn vertices(&self) -> (vertices: Option<Vec<MeshVertex>>)
        ensures
            match vertices {
                Some(vertices) => {
                    &&& self.normals@.len() >= 3 * vertex_count(*self)
                    &&& self.texcoords@.len() >= 2 * vertex_count(*self)
                    &&& vertices@.len() == vertex_count(*self)
                    &&& forall|i: int| 0 <= i < vertices@.len() ==> #[trigger] vertices@[i] == vertex_at(*self, i)
                },
                None => self.normals@.len() < 3 * vertex_count(*self) || self.texcoords@.len() < 2
                    * vertex_count(*self),
            },
    {
        let count: usize = self.positions.len() / 3;
        if self.normals.len() / 3 < count || self.texcoords.len() / 2 < count {
            return None;
        }
        assert(self.positions.len() == self.positions@.len());
        let mut vertices: Vec<MeshVertex> = Vec::new();
        let mut i: usize = 0;
        while i < count
            invariant
                i <= count,
                count == vertex_count(*self),
                self.positions@.len() <= usize::MAX,
                3 * count <= self.positions@.len(),
                3 * count <= self.normals@.len(),
                2 * count <= self.texcoords@.len(),
                vertices@.len() == i,
                forall|j: int| 0 <= j < i ==> #[trigger] vertices@[j] == vertex_at(*self, j),
            decreases count - i,
        {
            vertices.push(
                MeshVertex {
                    position: Vector3 {
                        x: self.positions[3 * i],
                        y: self.positions[3 * i + 1],
                        z: self.positions[3 * i + 2],
                    },
                    normal: Vector3 {
                        x: self.normals[3 * i],
                        y: self.normals[3 * i + 1],
                        z: self.normals[3 * i + 2],
                    },
                    tex_coords: Vector2 { x: self.texcoords[2 * i], y: self.texcoords[2 * i + 1] },
                },
            );
            i = i + 1;
        }
        Some(vertices)
    }
}

impl Model {
    /// That every mesh of the model has its material.
    pub open spec fn wf(&self) -> bool {
        forall|i: int| 0 <= i < self.meshes@.len() ==> (#[trigger] self.meshes@[i]).material < self.materials@.len()
    }

    /// The draws of the model for one range of instances: one for each mesh,
    /// in mesh order, each with the material of its mesh.
    pub fn draw_model_instanced(&self, instances: InstanceRange) -> (draws: Vec<MeshDraw>)
        ensures
            draws@.len() == self.meshes@.len(),
            forall|i: int| 0 <= i < draws@.len() ==> #[trigger] draws@[i] == mesh_draw(*self, i, instances, true),
    {
        self.draw_meshes(instances, true)
    }

    /// The draws of the model without textures: one for each mesh, in mesh
    /// order.
    pub fn draw_untextured(&self, instances: InstanceRange) -> (draws: Vec<MeshDraw>)
        ensures
            draws@.len() == self.meshes@.len(),
            forall|i: int| 0 <= i < draws@.len() ==> #[trigger] draws@[i] == mesh_draw(*self, i, instances, false),
    {
        self.draw_meshes(instances, false)
    }

    fn draw_meshes(&self, instances: InstanceRange, textured: bool) -> (draws: Vec<MeshDraw>)
        ensures
            draws@.len() == self.meshes@.len(),
            forall|i: int|
                0 <= i < draws@.len() ==> #[trigger] draws@[i] == mesh_draw(*self, i, instances, textured),
    {
        let mut draws: Vec<MeshDraw> = Vec::new();
        let mut i: usize = 0;
        while i < self.meshes.len()
            invariant
                i <= self.meshes@.len(),
                draws@.len() == i,
                forall|j: int| 0 <= j < i ==> #[trigger] draws@[j] == mesh_draw(*self, j, instances, textured),
            decreases self.meshes.len() - i,
        {
            let mesh = self.meshes[i];
            draws.push(
                MeshDraw {
                    mesh: i,
                    material: if textured {
                        Some(mesh.material)
                    } else {
                        None
                    },
                    num_indexes: mesh.num_indexes,
                    instances,
                },
            );
            i = i + 1;
        }
        draws
    }

    /// Makes a model of decoded meshes and materials.
    ///
    /// Every mesh keeps its place and its index count and gets the material
    /// it names, or the first. The first mesh that is not sound ends the
    /// load with its error.
    pub fn load(meshes: &Vec<RawMesh>, materials: Vec<Material>) -> (res: Result<Model, ModelError>)
        ensures
            match res {
                Ok(model) => {
                    &&& model.wf()
                    &&& model.instance_capacity == INSTANCE_BUFFER_LEN
                    &&& sound(meshes@, materials@.len() as int, meshes@.len() as int)
                    &&& model.meshes@.len() == meshes@.len()
                    &&& forall|i: int|
                        0 <= i < meshes@.len() ==> {
                            &&& (#[trigger] model.meshes@[i]).material == material_of(meshes@[i])
                            &&& model.meshes@[i].num_indexes == meshes@[i].indices@.len()
                        }
                    &&& model.materials@.len() == materials@.len()
                    &&& forall|i: int|
                        0 <= i < materials@.len() ==> #[trigger] model.materials@[i] == stored_material(
                            materials@[i],
                        )
                },
                Err(e) => exists|at: int|
                    {
                        &&& 0 <= at < meshes@.len()
                        &&& sound(meshes@, materials@.len() as int, at)
                        &&& mesh_error(#[trigger] meshes@[at], materials@.len() as int, at as usize) == Some(e)
                    },
            },
    {
        let mut stored: Vec<Material> = Vec::new();
        let mut m: usize = 0;
        while m < materials.len()
            invariant
                m <= materials@.len(),
                stored@.len() == m,
                forall|i: int| 0 <= i < m ==> #[trigger] stored@[i] == stored_material(materials@[i]),
            decreases materials.len() - m,
        {
            let diffuse_texture: String = materials[m].diffuse_texture.clone();
            let specular_texture: String = if materials[m].specular_texture.as_str().is_empty() {
                materials[m].diffuse_texture.clone()
            } else {
                materials[m].specular_texture.clone()
            };
            stored.push(Material { diffuse_texture, specular_texture });
            m = m + 1;
        }
        let mut planned: Vec<Mesh> = Vec::new();
        let mut i: usize = 0;
        while i < meshes.len()
            invariant
                i <= meshes@.len(),
                planned@.len() == i,
                stored@.len() == materials@.len(),
                forall|k: int| 0 <= k < stored@.len() ==> #[trigger] stored@[k] == stored_material(materials@[k]),
                sound(meshes@, materials@.len() as int, i as int),
                forall|j: int|
                    0 <= j < i ==> {
                        &&& (#[trigger] planned@[j]).material == material_of(meshes@[j])
                        &&& planned@[j].material < materials@.len()
                        &&& planned@[j].num_indexes == meshes@[j].indices@.len()
                    },
            decreases meshes.len() - i,
        {
            let mesh = &meshes[i];
            let count: usize = mesh.positions.len() / 3;
            let ghost slots = materials@.len() as int;
            if mesh.normals.len() / 3 < count || mesh.texcoords.len() / 2 < count {
                assert(mesh_error(meshes@[i as int], slots, i) == Some(ModelError::MissingAttributes { mesh: i }));
                return Err(ModelError::MissingAttributes { mesh: i });
            }
            if mesh.indices.len() > u32::MAX as usize {
                assert(mesh_error(meshes@[i as int], slots, i) == Some(ModelError::TooManyIndices { mesh: i }));
                return Err(ModelError::TooManyIndices { mesh: i });
            }
            let material: usize = match mesh.material_id {
                Some(material) => material,
                None => 0,
            };
            if material >= stored.len() {
                assert(mesh_error(meshes@[i as int], slots, i) == Some(ModelError::UnknownMaterial { mesh: i }));
                return Err(ModelError::UnknownMaterial { mesh: i });
            }
            assert(mesh_error(meshes@[i as int], slots, i) is None);
            planned.push(Mesh { material, num_indexes: mesh.indices.len() as u32 });
            i = i + 1;
        }
        Ok(Model { instance_capacity: INSTANCE_BUFFER_LEN, meshes: planned, materials: stored })
    }
}

} // verus!
