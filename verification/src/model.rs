//! Building a model from parsed mesh and material records.
//!
//! The host fetches the geometry and material texts, parses them into
//! plain records (triangulated, single-indexed), and fetches each
//! referenced texture's bytes.  This module turns those records into
//! the model the renderer draws: it decodes the textures, interleaves
//! each mesh's position/texcoord/normal words into one vertex buffer,
//! resolves material indices, and rejects anything malformed — a load
//! either yields the whole model or nothing.
//!
//! Vertex coordinates are f32 values carried as their raw bit patterns;
//! interleaving only rearranges the words, so no float arithmetic
//! happens here.

use vstd::prelude::*;

use crate::errors::LoadError;
use crate::texture::{Texture, TextureImage, decoded_rgba};

verus! {

/// Words (f32 bit patterns) in one interleaved vertex:
/// three position, two texcoord, three normal words.
pub const WORDS_PER_VERTEX: usize = 8;

/// One parsed mesh: flat coordinate arrays as the geometry text gives
/// them, and the index of the material it references, if any.
#[derive(Debug)]
pub struct MeshRecord {
    /// The mesh's name in the geometry text.
    pub name: String,
    /// x, y, z per vertex, as f32 bit patterns.
    pub positions: Vec<u32>,
    /// u, v per vertex, as f32 bit patterns.
    pub texcoords: Vec<u32>,
    /// x, y, z per vertex, as f32 bit patterns.
    pub normals: Vec<u32>,
    /// Triangle indices into the vertex arrays.
    pub indices: Vec<u32>,
    /// Index into the material list, or `None` if the record assigns no
    /// material.
    pub material_id: Option<usize>,
}

/// One parsed material reference: its name and the fetched bytes of its
/// diffuse texture.
#[derive(Debug)]
pub struct MaterialRecord {
    /// The material's name in the material text.
    pub name: String,
    /// The fetched, still-encoded bytes of the diffuse texture.
    pub texture_bytes: Vec<u8>,
}

/// The material index a record resolves to: the assigned one, or 0 when
/// the record assigns none.
pub open spec fn spec_resolved_material(material_id: Option<usize>) -> usize {
    match material_id {
        Some(id) => id,
        None => 0,
    }
}

/// The coordinate arrays describe whole vertices: positions come in
/// x/y/z triples, with one u/v pair and one normal triple per vertex,
/// and the element count fits the GPU's 32-bit draw count.
pub open spec fn mesh_record_wf(r: MeshRecord) -> bool {
    &&& r.positions@.len() % 3 == 0
    &&& r.texcoords@.len() == 2 * (r.positions@.len() / 3)
    &&& r.normals@.len() == r.positions@.len()
    &&& r.indices@.len() <= u32::MAX
}

/// The interleaved vertex buffer: for each vertex, its three position
/// words, two texcoord words and three normal words, in that order.
pub open spec fn interleaved_vertex_words(
    positions: Seq<u32>,
    texcoords: Seq<u32>,
    normals: Seq<u32>,
) -> Seq<u32> {
    Seq::new(
        (WORDS_PER_VERTEX * (positions.len() / 3)) as nat,
        |k: int|
            {
                let i = k / 8;
                let j = k % 8;
                if j < 3 {
                    positions[3 * i + j]
                } else if j < 5 {
                    texcoords[2 * i + (j - 3)]
                } else {
                    normals[3 * i + (j - 5)]
                }
            },
    )
}

/// One mesh of the model: its interleaved vertex buffer, its index
/// buffer, the number of indices to draw, and the material it binds.
#[derive(Debug)]
pub struct Mesh {
    /// The mesh's name.
    pub name: String,
    /// The interleaved vertex words the host uploads as the vertex
    /// buffer.
    pub vertex_data: Vec<u32>,
    /// The triangle indices the host uploads as the index buffer.
    pub index_data: Vec<u32>,
    /// How many indices one draw call of this mesh consumes.
    pub num_elements: u32,
    /// Index into the owning model's material list.
    pub material: usize,
}

/// `m` is exactly the mesh that record `r` describes.
pub open spec fn mesh_matches_record(m: Mesh, r: MeshRecord) -> bool {
    &&& m.name@ == r.name@
    &&& m.vertex_data@ == interleaved_vertex_words(r.positions@, r.texcoords@, r.normals@)
    &&& m.index_data@ == r.indices@
    &&& m.num_elements == r.indices@.len()
    &&& m.material == spec_resolved_material(r.material_id)
}

impl MeshRecord {
    /// Whether the coordinate arrays describe whole vertices.
    pub fn is_wf(&self) -> (r: bool)
        ensures
            r == mesh_record_wf(*self),
    {
        self.positions.len() % 3 == 0 && self.texcoords.len() == self.positions.len() / 3 * 2
            && self.normals.len() == self.positions.len() && self.indices.len() <= u32::MAX as usize
    }
}

impl Mesh {
    /// Build one mesh from its record: interleave the coordinate arrays
    /// into the vertex buffer, copy the indices, and resolve the
    /// material index, defaulting to 0 when the record assigns none.
    pub fn from_record(rec: &MeshRecord) -> (m: Mesh)
        requires
            mesh_record_wf(*rec),
        ensures
            mesh_matches_record(m, *rec),
    {
        let n = rec.positions.len() / 3;
        proof {
            assert(3 * (rec.positions@.len() / 3) == rec.positions@.len());
        }
        let mut vertex_data: Vec<u32> = Vec::new();
        let ghost full = interleaved_vertex_words(
            rec.positions@,
            rec.texcoords@,
            rec.normals@,
        );
        let mut i: usize = 0;
        while i < n
            invariant
                mesh_record_wf(*rec),
                n == rec.positions@.len() / 3,
                3 * n == rec.positions@.len(),
                rec.positions@.len() <= usize::MAX,
                i <= n,
                full == interleaved_vertex_words(rec.positions@, rec.texcoords@, rec.normals@),
                vertex_data@.len() == 8 * i,
                forall|k: int| 0 <= k < 8 * i ==> vertex_data@[k] == full[k],
            decreases n - i,
        {
            vertex_data.push(rec.positions[3 * i]);
            vertex_data.push(rec.positions[3 * i + 1]);
            vertex_data.push(rec.positions[3 * i + 2]);
            vertex_data.push(rec.texcoords[2 * i]);
            vertex_data.push(rec.texcoords[2 * i + 1]);
            vertex_data.push(rec.normals[3 * i]);
            vertex_data.push(rec.normals[3 * i + 1]);
            vertex_data.push(rec.normals[3 * i + 2]);
            i += 1;
        }
        proof {
            assert(vertex_data@ =~= full);
        }
        let mut index_data: Vec<u32> = Vec::new();
        let mut t: usize = 0;
        while t < rec.indices.len()
            invariant
                t <= rec.indices@.len(),
                index_data@ == rec.indices@.take(t as int),
            decreases rec.indices@.len() - t,
        {
            index_data.push(rec.indices[t]);
            t += 1;
        }
        proof {
            assert(index_data@ =~= rec.indices@);
        }
        let num_elements = rec.indices.len() as u32;
        let material = match rec.material_id {
            Some(id) => id,
            None => 0,
        };
        Mesh { name: rec.name.clone(), vertex_data, index_data, num_elements, material }
    }
}

/// One material of the model: its name and its decoded diffuse texture.
/// The bind group over the texture's view and sampler lives with the
/// host.
#[derive(Debug)]
pub struct Material {
    /// The material's name.
    pub name: String,
    /// The decoded diffuse texture, ready for upload.
    pub diffuse_texture: Texture,
}

/// The record's texture bytes decode, and a pixel row of the decoded
/// image fits the upload layout's `u32` byte stride.
pub open spec fn material_record_ok(r: MaterialRecord) -> bool {
    &&& decoded_rgba(r.texture_bytes@) is Some
    &&& 4 * (decoded_rgba(r.texture_bytes@)->Some_0).1 <= u32::MAX
}

/// `m` is exactly the material that record `r` describes.
pub open spec fn material_matches_record(m: Material, r: MaterialRecord) -> bool {
    &&& m.name@ == r.name@
    &&& decoded_rgba(r.texture_bytes@) == Some(
        (m.diffuse_texture.pixels(), m.diffuse_texture.width(), m.diffuse_texture.height()),
    )
    &&& m.diffuse_texture.wf()
}

impl Material {
    /// Build one material from its record: decode the texture bytes and
    /// prepare the upload.  Fails with a decode error exactly when the
    /// bytes are not a well-formed image or a pixel row would overflow
    /// the upload stride.
    pub fn from_record(rec: &MaterialRecord) -> (r: Result<Material, LoadError>)
        ensures
            r is Ok <==> material_record_ok(*rec),
            r is Ok ==> material_matches_record(r->Ok_0, *rec),
            r is Err ==> r->Err_0 == LoadError::Decode,
    {
        let img = match TextureImage::from_bytes(&rec.texture_bytes) {
            Ok(img) => img,
            Err(e) => {
                return Err(e);
            },
        };
        let diffuse_texture = match Texture::from_image(img) {
            Ok(t) => t,
            Err(e) => {
                return Err(e);
            },
        };
        Ok(Material { name: rec.name.clone(), diffuse_texture })
    }
}

/// Every material record decodes and fits the upload layout.
pub open spec fn all_materials_ok(rs: Seq<MaterialRecord>) -> bool {
    forall|j: int| 0 <= j < rs.len() ==> material_record_ok(rs[j])
}

/// Every mesh record is well formed and resolves to a material index
/// inside a material list of length `num_materials`.
pub open spec fn all_meshes_ok(rs: Seq<MeshRecord>, num_materials: int) -> bool {
    forall|i: int|
        0 <= i < rs.len() ==> (mesh_record_wf(rs[i]) && spec_resolved_material(rs[i].material_id)
            < num_materials)
}

/// The loaded model: its meshes and the materials they index into.
#[derive(Debug)]
pub struct Model {
    /// The meshes, in record order.
    pub meshes: Vec<Mesh>,
    /// The materials, in record order.
    pub materials: Vec<Material>,
}

impl Model {
    /// Every mesh's material index points into the material list.
    pub open spec fn wf(&self) -> bool {
        forall|i: int|
            0 <= i < self.meshes@.len() ==> (#[trigger] self.meshes@[i]).material
                < self.materials@.len()
    }

    /// Build the model from parsed records.  All-or-nothing: the model
    /// holds one mesh per mesh record and one material per material
    /// record, or the first failure aborts the whole load — a texture
    /// that does not decode is a decode error, and a malformed mesh
    /// record or a material index outside the material list is a parse
    /// error.
    pub fn from_records(mesh_records: Vec<MeshRecord>, material_records: Vec<MaterialRecord>) -> (r:
        Result<Model, LoadError>)
        ensures
            r is Ok <==> (all_materials_ok(material_records@) && all_meshes_ok(
                mesh_records@,
                material_records@.len() as int,
            )),
            !all_materials_ok(material_records@) ==> r == Err::<Model, LoadError>(LoadError::Decode),
            all_materials_ok(material_records@) && !all_meshes_ok(
                mesh_records@,
                material_records@.len() as int,
            ) ==> r == Err::<Model, LoadError>(LoadError::Parse),
            r is Ok ==> {
                let m = r->Ok_0;
                &&& m.meshes@.len() == mesh_records@.len()
                &&& m.materials@.len() == material_records@.len()
                &&& forall|i: int|
                    0 <= i < mesh_records@.len() ==> mesh_matches_record(
                        #[trigger] m.meshes@[i],
                        mesh_records@[i],
                    )
                &&& forall|j: int|
                    0 <= j < material_records@.len() ==> material_matches_record(
                        #[trigger] m.materials@[j],
                        material_records@[j],
                    )
                &&& m.wf()
            },
    {
        let mut materials: Vec<Material> = Vec::new();
        let mut j: usize = 0;
        while j < material_records.len()
            invariant
                j <= material_records@.len(),
                materials@.len() == j,
                forall|k: int|
                    0 <= k < j ==> material_record_ok(#[trigger] material_records@[k]),
                forall|k: int|
                    0 <= k < j ==> material_matches_record(
                        #[trigger] materials@[k],
                        material_records@[k],
                    ),
            decreases material_records@.len() - j,
        {
            match Material::from_record(&material_records[j]) {
                Ok(m) => materials.push(m),
                Err(e) => {
                    return Err(e);
                },
            }
            j += 1;
        }
        let mut i: usize = 0;
        while i < mesh_records.len()
            invariant
                i <= mesh_records@.len(),
                all_materials_ok(material_records@),
                materials@.len() == material_records@.len(),
                forall|k: int|
                    0 <= k < materials@.len() ==> material_matches_record(
                        #[trigger] materials@[k],
                        material_records@[k],
                    ),
                forall|k: int|
                    0 <= k < i ==> (mesh_record_wf(#[trigger] mesh_records@[k])
                        && spec_resolved_material(mesh_records@[k].material_id)
                        < material_records@.len()),
            decreases mesh_records@.len() - i,
        {
            let rec = &mesh_records[i];
            if !rec.is_wf() {
                return Err(LoadError::Parse);
            }
            let resolved = match rec.material_id {
                Some(id) => id,
                None => 0,
            };
            if resolved >= materials.len() {
                return Err(LoadError::Parse);
            }
            i += 1;
        }
        let mut meshes: Vec<Mesh> = Vec::new();
        let mut i: usize = 0;
        while i < mesh_records.len()
            invariant
                all_materials_ok(material_records@),
                all_meshes_ok(mesh_records@, material_records@.len() as int),
                materials@.len() == material_records@.len(),
                forall|k: int|
                    0 <= k < materials@.len() ==> material_matches_record(
                        #[trigger] materials@[k],
                        material_records@[k],
                    ),
                i <= mesh_records@.len(),
                meshes@.len() == i,
                forall|k: int|
                    0 <= k < i ==> mesh_matches_record(#[trigger] meshes@[k], mesh_records@[k]),
            decreases mesh_records@.len() - i,
        {
            meshes.push(Mesh::from_record(&mesh_records[i]));
            i += 1;
        }
        let model = Model { meshes, materials };
        proof {
            assert forall|i: int| 0 <= i < model.meshes@.len() implies (#[trigger] model.meshes@[
            i]).material < model.materials@.len() by {
                assert(mesh_matches_record(model.meshes@[i], mesh_records@[i]));
            }
        }
        Ok(model)
    }

    /// The draw calls of one render pass over this model, one per mesh
    /// in mesh order: the host binds mesh `c.mesh`'s buffers and
    /// material `c.material`'s bind group and draws `c.num_elements`
    /// indices for one instance.
    pub fn draw_plan(&self) -> (calls: Vec<DrawCall>)
        requires
            self.wf(),
        ensures
            plan_matches_model(calls@, *self, (0u32, 1u32)),
    {
        self.draw_plan_instanced((0, 1))
    }

    /// The draw calls of one render pass over this model for the
    /// instance range `instances`, one call per mesh in mesh order.
    pub fn draw_plan_instanced(&self, instances: (u32, u32)) -> (calls: Vec<DrawCall>)
        requires
            self.wf(),
        ensures
            plan_matches_model(calls@, *self, instances),
    {
        let mut calls: Vec<DrawCall> = Vec::new();
        let mut i: usize = 0;
        while i < self.meshes.len()
            invariant
                self.wf(),
                i <= self.meshes@.len(),
                calls@.len() == i,
                forall|k: int|
                    0 <= k < i ==> call_matches_mesh(#[trigger] calls@[k], k, *self, instances),
            decreases self.meshes@.len() - i,
        {
            calls.push(
                DrawCall {
                    mesh: i,
                    material: self.meshes[i].material,
                    num_elements: self.meshes[i].num_elements,
                    instance_start: instances.0,
                    instance_end: instances.1,
                },
            );
            i += 1;
        }
        calls
    }
}

/// One indexed draw call of the render pass: which mesh's buffers to
/// bind, which material bind group to attach, and how many indices and
/// which instances to draw.
#[derive(Clone, Copy, PartialEq, Eq, Structural, Debug)]
pub struct DrawCall {
    /// Index of the mesh whose vertex and index buffers are bound.
    pub mesh: usize,
    /// Index of the material whose bind group is attached.
    pub material: usize,
    /// The indices `0 .. num_elements` are drawn.
    pub num_elements: u32,
    /// First instance drawn.
    pub instance_start: u32,
    /// One past the last instance drawn.
    pub instance_end: u32,
}

/// Call `c` draws mesh `k` of `model` with that mesh's own material and
/// element count, for the instance range `instances`.
pub open spec fn call_matches_mesh(c: DrawCall, k: int, model: Model, instances: (u32, u32)) -> bool {
    &&& c.mesh == k
    &&& c.material == model.meshes@[k].material
    &&& c.material < model.materials@.len()
    &&& c.num_elements == model.meshes@[k].num_elements
    &&& c.instance_start == instances.0
    &&& c.instance_end == instances.1
}

/// The plan holds one call per mesh of `model`, in mesh order.
pub open spec fn plan_matches_model(calls: Seq<DrawCall>, model: Model, instances: (u32, u32)) -> bool {
    &&& calls.len() == model.meshes@.len()
    &&& forall|k: int|
        0 <= k < calls.len() ==> call_matches_mesh(#[trigger] calls[k], k, model, instances)
}

/// One attribute of the vertex buffer layout: where in the interleaved
/// vertex it starts, which shader location it feeds, and how many f32
/// components it has.
#[derive(Clone, Copy, PartialEq, Eq, Structural, Debug)]
pub struct VertexAttributeDesc {
    /// Byte offset of the attribute inside one vertex.
    pub offset: u32,
    /// The shader location the attribute is wired to.
    pub shader_location: u32,
    /// Number of f32 components (2 or 3).
    pub components: u32,
}

/// The byte stride of one interleaved vertex: eight 4-byte words.
pub fn model_vertex_stride_bytes() -> (s: u32)
    ensures
        s == 4 * WORDS_PER_VERTEX,
{
    32
}

/// The attributes of the interleaved vertex buffer, matching the word
/// order of [`interleaved_vertex_words`]: position (three words) at
/// offset 0 into shader location 0, texcoord (two words) at byte offset
/// 12 into location 1, normal (three words) at byte offset 20 into
/// location 2.
pub fn model_vertex_layout() -> (attrs: Vec<VertexAttributeDesc>)
    ensures
        attrs@.len() == 3,
        attrs@[0] == (VertexAttributeDesc { offset: 0u32, shader_location: 0u32, components: 3u32 }),
        attrs@[1] == (VertexAttributeDesc {
            offset: 12u32,
            shader_location: 1u32,
            components: 2u32,
        }),
        attrs@[2] == (VertexAttributeDesc {
            offset: 20u32,
            shader_location: 2u32,
            components: 3u32,
        }),
{
    let mut attrs: Vec<VertexAttributeDesc> = Vec::new();
    attrs.push(VertexAttributeDesc { offset: 0, shader_location: 0, components: 3 });
    attrs.push(VertexAttributeDesc { offset: 12, shader_location: 1, components: 2 });
    attrs.push(VertexAttributeDesc { offset: 20, shader_location: 2, components: 3 });
    attrs
}

} // verus!
