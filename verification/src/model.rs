//! Meshes, materials, and model assembly.
//!
//! The asset collaborator parses the geometry file into flat per-vertex
//! arrays and material records; this module owns everything after that:
//! grouping the arrays into vertices, checking that every attribute the
//! vertex layout requires is present, decoding each material's diffuse
//! texture into an exact upload, binding one resource group per material,
//! and guaranteeing that every mesh's material index is valid.  Scalar
//! vertex values travel as opaque 32-bit patterns.

use vstd::prelude::*;

use crate::bindings::{bind_texture_group, BindGroup, BindGroupLayout, LayoutKind};
use crate::texture::{rgba_decode_of, Texture, TextureError, TextureUpload};
use crate::pipeline::{VertexAttribute, VertexFormat, VertexLayoutDesc, VertexStepMode};

verus! {

/// The vertex-layout interface: every vertex type describes its own buffer
/// stream.
pub trait Vertex {
    fn desc() -> VertexLayoutDesc;
}

/// One model vertex: position, texture coordinates and normal, each scalar
/// an opaque 32-bit pattern.
#[derive(Clone, Copy, Debug)]
pub struct ModelVertex {
    pub position: [u32; 3],
    pub tex_coords: [u32; 2],
    pub normals: [u32; 3],
}

/// The attributes of the model vertex stream: position at offset 0,
/// texture coordinates at 12, normal at 20, in shader locations 0–2.
pub open spec fn model_vertex_attributes() -> Seq<VertexAttribute> {
    seq![
        VertexAttribute { offset: 0, shader_location: 0, format: VertexFormat::Float32x3 },
        VertexAttribute { offset: 12, shader_location: 1, format: VertexFormat::Float32x2 },
        VertexAttribute { offset: 20, shader_location: 2, format: VertexFormat::Float32x3 },
    ]
}

impl Vertex for ModelVertex {
    /// The model vertex stream: 32 bytes per vertex, advancing per vertex.
    fn desc() -> (d: VertexLayoutDesc)
        ensures
            d.array_stride == 32,
            d.step_mode == VertexStepMode::Vertex,
            d.attributes@ == model_vertex_attributes(),
    {
        let mut attributes: Vec<VertexAttribute> = Vec::new();
        attributes.push(
            VertexAttribute { offset: 0, shader_location: 0, format: VertexFormat::Float32x3 },
        );
        attributes.push(
            VertexAttribute { offset: 12, shader_location: 1, format: VertexFormat::Float32x2 },
        );
        attributes.push(
            VertexAttribute { offset: 20, shader_location: 2, format: VertexFormat::Float32x3 },
        );
        proof {
            assert(attributes@ =~= model_vertex_attributes());
        }
        VertexLayoutDesc { array_stride: 32, step_mode: VertexStepMode::Vertex, attributes }
    }
}

/// One parsed mesh, as the asset collaborator delivers it: flat scalar
/// arrays, three position and normal words and two texture-coordinate
/// words per vertex, plus the index list and the material assignment.
pub struct MeshData {
    pub positions: Vec<u32>,
    pub texcoords: Vec<u32>,
    pub normals: Vec<u32>,
    pub indices: Vec<u32>,
    pub material_id: Option<usize>,
}

/// One parsed material record: its name and the encoded bytes of its
/// diffuse texture.
pub struct MaterialData {
    pub name: String,
    pub diffuse_bytes: Vec<u8>,
}

/// A mesh ready for upload: its vertices, indices, element count and the
/// index of its material.
pub struct Mesh {
    pub vertices: Vec<ModelVertex>,
    pub indices: Vec<u32>,
    pub num_elements: u32,
    pub material: usize,
}

/// A material: its name, its decoded diffuse texture, and the resource
/// group bound to the texture layout.
pub struct Material {
    pub name: String,
    pub diffuse_texture: Texture,
    pub bind_group: BindGroup,
}

/// The model: its meshes and materials.  Every mesh's `material` is a
/// valid index into `materials`.
pub struct Model {
    pub meshes: Vec<Mesh>,
    pub materials: Vec<Material>,
}

/// Why a model could not be assembled.  Load failures are fatal: the scene
/// cannot render without its geometry or its textures.
#[derive(Clone, Copy, PartialEq, Eq, Structural, Debug)]
pub enum LoadError {
    /// A mesh's position array is not a whole number of vertices.
    BadPositions { mesh: usize },
    /// A mesh lacks the texture coordinates the vertex layout requires.
    MissingTexCoords { mesh: usize },
    /// A mesh lacks the normals the vertex layout requires.
    MissingNormals { mesh: usize },
    /// A mesh's index list does not fit the element-count word.
    TooManyIndices { mesh: usize },
    /// A mesh's material assignment points outside the material list.
    BadMaterialIndex { mesh: usize },
    /// A material's diffuse texture cannot be decoded or described.
    Texture { material: usize, error: TextureError },
}

/// The vertex count a mesh's flat arrays describe.
pub open spec fn vertex_count(d: MeshData) -> int {
    d.positions@.len() as int / 3
}

/// A parsed mesh is complete: whole vertices, one texture coordinate pair
/// and one normal per vertex, an element count that fits its word, and a
/// material assignment inside the material list (absent means the first).
pub open spec fn mesh_data_ok(d: MeshData, n_materials: int) -> bool {
    &&& d.positions@.len() % 3 == 0
    &&& d.texcoords@.len() == 2 * vertex_count(d)
    &&& d.normals@.len() == d.positions@.len()
    &&& d.indices@.len() <= u32::MAX
    &&& match d.material_id {
        Some(id) => id < n_materials,
        None => n_materials > 0,
    }
}

/// A material record decodes into a describable texture.
pub open spec fn material_data_ok(md: MaterialData) -> bool {
    rgba_decode_of(md.diffuse_bytes@) matches Some((p, w, h)) && 4 * w <= u32::MAX
}

/// Vertex `v` of `mesh` groups exactly the `v`-th scalars of the flat
/// arrays.
pub open spec fn vertex_from(d: MeshData, v: int, vert: ModelVertex) -> bool {
    &&& vert.position@ == seq![d.positions@[3 * v], d.positions@[3 * v + 1], d.positions@[3 * v + 2]]
    &&& vert.tex_coords@ == seq![d.texcoords@[2 * v], d.texcoords@[2 * v + 1]]
    &&& vert.normals@ == seq![d.normals@[3 * v], d.normals@[3 * v + 1], d.normals@[3 * v + 2]]
}

/// The mesh built from `d`: grouped vertices, the same indices, the index
/// count as element count, and the material assignment (first material
/// when absent).
pub open spec fn mesh_from(d: MeshData, m: Mesh) -> bool {
    &&& m.vertices@.len() == vertex_count(d)
    &&& forall|v: int| 0 <= v < vertex_count(d) ==> #[trigger] vertex_from(d, v, m.vertices@[v])
    &&& m.indices@ == d.indices@
    &&& m.num_elements == d.indices@.len()
    &&& m.material == match d.material_id {
        Some(id) => id,
        None => 0,
    }
}

/// The material built from `md`, with its upload: the record's name, the
/// decoded texture, and a group bound to the texture layout.
pub open spec fn material_from(md: MaterialData, mat: Material, up: TextureUpload) -> bool {
    &&& rgba_decode_of(md.diffuse_bytes@) matches Some((p, w, h)) && {
        &&& mat.diffuse_texture.extent.width == w
        &&& mat.diffuse_texture.extent.height == h
        &&& up.data@ == p
        &&& up.bytes_per_row == 4 * w
        &&& up.rows_per_image == h
    }
    &&& mat.name@ == md.name@
    &&& mat.bind_group.layout == LayoutKind::TextureMaterial
}

impl Model {
    /// Every mesh points at an existing material and counts its own
    /// indices, and every material's group satisfies the texture layout.
    pub open spec fn wf(self) -> bool {
        &&& forall|m: int|
            0 <= m < self.meshes@.len() ==> {
                &&& (#[trigger] self.meshes@[m]).material < self.materials@.len()
                &&& self.meshes@[m].num_elements == self.meshes@[m].indices@.len()
            }
        &&& forall|i: int|
            0 <= i < self.materials@.len() ==> (#[trigger] self.materials@[i]).bind_group.layout
                == LayoutKind::TextureMaterial
    }

    /// Assembles a model from parsed meshes and material records.
    /// Succeeds exactly when every mesh is complete and every material
    /// decodes; the result then carries, in order, one built mesh per
    /// parsed mesh and one bound material (with its upload) per record,
    /// and every material index is valid.
    #[verifier::loop_isolation(false)]
    pub fn load_model(meshes_in: &Vec<MeshData>, materials_in: &Vec<MaterialData>, layout:
        &BindGroupLayout) -> (r: Result<(Model, Vec<TextureUpload>), LoadError>)
        requires
            layout.wf(),
            layout.kind == LayoutKind::TextureMaterial,
        ensures
            r is Ok <==> {
                &&& forall|m: int|
                    0 <= m < meshes_in@.len() ==> #[trigger] mesh_data_ok(
                        meshes_in@[m],
                        materials_in@.len() as int,
                    )
                &&& forall|i: int|
                    0 <= i < materials_in@.len() ==> #[trigger] material_data_ok(materials_in@[i])
            },
            r matches Ok((model, uploads)) ==> {
                &&& model.meshes@.len() == meshes_in@.len()
                &&& forall|m: int|
                    0 <= m < meshes_in@.len() ==> #[trigger] mesh_from(
                        meshes_in@[m],
                        model.meshes@[m],
                    )
                &&& model.materials@.len() == materials_in@.len()
                &&& uploads@.len() == materials_in@.len()
                &&& forall|i: int|
                    0 <= i < materials_in@.len() ==> #[trigger] material_from(
                        materials_in@[i],
                        model.materials@[i],
                        uploads@[i],
                    )
                &&& model.wf()
            },
    {
        let mut materials: Vec<Material> = Vec::new();
        let mut uploads: Vec<TextureUpload> = Vec::new();
        let mut i: usize = 0;
        while i < materials_in.len()
            invariant
                layout.wf(),
                layout.kind == LayoutKind::TextureMaterial,
                i <= materials_in@.len(),
                materials@.len() == i,
                uploads@.len() == i,
                forall|q: int| 0 <= q < i ==> #[trigger] material_data_ok(materials_in@[q]),
                forall|q: int|
                    0 <= q < i ==> #[trigger] material_from(
                        materials_in@[q],
                        materials@[q],
                        uploads@[q],
                    ),
            decreases materials_in@.len() - i,
        {
            let md = &materials_in[i];
            let (texture, upload) = match Texture::new(&md.diffuse_bytes) {
                Ok(pair) => pair,
                Err(e) => {
                    proof {
                        assert(*md == materials_in@[i as int]);
                        assert(!material_data_ok(*md));
                        assert(!material_data_ok(materials_in@[i as int]));
                    }
                    return Err(LoadError::Texture { material: i, error: e });
                },
            };
            let bind_group = bind_texture_group(layout);
            let name = md.name.clone();
            materials.push(Material { name, diffuse_texture: texture, bind_group });
            uploads.push(upload);
            i = i + 1;
        }

        let mut meshes: Vec<Mesh> = Vec::new();
        let mut m: usize = 0;
        while m < meshes_in.len()
            invariant
                m <= meshes_in@.len(),
                meshes@.len() == m,
                materials@.len() == materials_in@.len(),
                forall|q: int|
                    0 <= q < m ==> #[trigger] mesh_data_ok(
                        meshes_in@[q],
                        materials_in@.len() as int,
                    ),
                forall|q: int| 0 <= q < m ==> #[trigger] mesh_from(meshes_in@[q], meshes@[q]),
                forall|q: int|
                    0 <= q < m ==> (#[trigger] meshes@[q]).material < materials@.len(),
            decreases meshes_in@.len() - m,
        {
            let d = &meshes_in[m];
            match build_mesh(d, materials.len(), m) {
                Ok(mesh) => {
                    meshes.push(mesh);
                },
                Err(e) => {
                    return Err(e);
                },
            }
            m = m + 1;
        }

        let model = Model { meshes, materials };
        proof {
            assert(forall|q: int|
                0 <= q < materials_in@.len() ==> #[trigger] material_data_ok(materials_in@[q]));
            assert(forall|q: int|
                0 <= q < meshes_in@.len() ==> #[trigger] mesh_data_ok(
                    meshes_in@[q],
                    materials_in@.len() as int,
                ));
            assert forall|q: int| 0 <= q < model.meshes@.len() implies {
                &&& (#[trigger] model.meshes@[q]).material < model.materials@.len()
                &&& model.meshes@[q].num_elements == model.meshes@[q].indices@.len()
            } by {
                assert(mesh_from(meshes_in@[q], model.meshes@[q]));
            }
            assert forall|q: int|
                0 <= q < model.materials@.len() implies (#[trigger] model.materials@[q]).bind_group.layout
                == LayoutKind::TextureMaterial by {
                assert(material_from(materials_in@[q], model.materials@[q], uploads@[q]));
            }
            assert(model.wf());
        }
        Ok((model, uploads))
    }
}

/// Builds one mesh from its parsed arrays, or reports what is missing.
/// `mesh_no` only names the mesh in the error.
#[verifier::loop_isolation(false)]
fn build_mesh(d: &MeshData, n_materials: usize, mesh_no: usize) -> (r: Result<Mesh, LoadError>)
    ensures
        r is Ok <==> mesh_data_ok(*d, n_materials as int),
        r matches Ok(mesh) ==> mesh_from(*d, mesh) && mesh.material < n_materials,
        r matches Err(e) ==> match e {
            LoadError::BadPositions { mesh } => mesh == mesh_no && d.positions@.len() % 3 != 0,
            LoadError::MissingTexCoords { mesh } => mesh == mesh_no && d.texcoords@.len() != 2
                * vertex_count(*d),
            LoadError::MissingNormals { mesh } => mesh == mesh_no && d.normals@.len()
                != d.positions@.len(),
            LoadError::TooManyIndices { mesh } => mesh == mesh_no && d.indices@.len() > u32::MAX,
            LoadError::BadMaterialIndex { mesh } => mesh == mesh_no && !match d.material_id {
                Some(id) => id < n_materials,
                None => n_materials > 0,
            },
            _ => false,
        },
{
    if d.positions.len() % 3 != 0 {
        return Err(LoadError::BadPositions { mesh: mesh_no });
    }
    let nv = d.positions.len() / 3;
    if d.texcoords.len() != 2 * nv {
        return Err(LoadError::MissingTexCoords { mesh: mesh_no });
    }
    if d.normals.len() != d.positions.len() {
        return Err(LoadError::MissingNormals { mesh: mesh_no });
    }
    if d.indices.len() > u32::MAX as usize {
        return Err(LoadError::TooManyIndices { mesh: mesh_no });
    }
    let material: usize = match d.material_id {
        Some(id) => id,
        None => 0,
    };
    if material >= n_materials {
        return Err(LoadError::BadMaterialIndex { mesh: mesh_no });
    }

    let mut vertices: Vec<ModelVertex> = Vec::new();
    let mut v: usize = 0;
    while v < nv
        invariant
            nv == vertex_count(*d),
            3 * nv == d.positions@.len(),
            2 * nv == d.texcoords@.len(),
            d.normals@.len() == d.positions@.len(),
            v <= nv,
            vertices@.len() == v,
            forall|u: int| 0 <= u < v ==> #[trigger] vertex_from(*d, u, vertices@[u]),
        decreases nv - v,
    {
        let vert = ModelVertex {
            position: [d.positions[3 * v], d.positions[3 * v + 1], d.positions[3 * v + 2]],
            tex_coords: [d.texcoords[2 * v], d.texcoords[2 * v + 1]],
            normals: [d.normals[3 * v], d.normals[3 * v + 1], d.normals[3 * v + 2]],
        };
        proof {
            assert(vert.position@ =~= seq![
                d.positions@[3 * v],
                d.positions@[3 * v + 1],
                d.positions@[3 * v + 2],
            ]);
            assert(vert.tex_coords@ =~= seq![d.texcoords@[2 * v], d.texcoords@[2 * v + 1]]);
            assert(vert.normals@ =~= seq![
                d.normals@[3 * v],
                d.normals@[3 * v + 1],
                d.normals@[3 * v + 2],
            ]);
            assert(vertex_from(*d, v as int, vert));
        }
        vertices.push(vert);
        v = v + 1;
    }

    let indices = copy_indices(&d.indices);
    let num_elements = indices.len() as u32;
    Ok(Mesh { vertices, indices, num_elements, material })
}

/// Byte-for-byte copy of an index list.
fn copy_indices(src: &Vec<u32>) -> (out: Vec<u32>)
    ensures
        out@ == src@,
{
    let mut out: Vec<u32> = Vec::new();
    let mut i: usize = 0;
    while i < src.len()
        invariant
            i <= src@.len(),
            out@ == src@.take(i as int),
        decreases src@.len() - i,
    {
        out.push(src[i]);
        proof {
            assert(out@ =~= src@.take(i + 1));
        }
        i = i + 1;
    }
    proof {
        assert(src@.take(src@.len() as int) =~= src@);
    }
    out
}

} // verus!
