use obj_viewer::errors::LoadError;
use obj_viewer::model::{model_vertex_layout, model_vertex_stride_bytes, Mesh, MeshRecord,
    MaterialRecord, Model};
use obj_viewer::texture::TextureImage;

/// A well-formed 2x2 image: a binary PPM with four RGB pixels.
fn two_by_two_image() -> Vec<u8> {
    let mut bytes = b"P6\n2 2\n255\n".to_vec();
    bytes.extend_from_slice(&[
        255, 0, 0, // red
        0, 255, 0, // green
        0, 0, 255, // blue
        255, 255, 0, // yellow
    ]);
    bytes
}

fn mesh_record(name: &str, material_id: Option<usize>) -> MeshRecord {
    MeshRecord {
        name: name.to_string(),
        positions: vec![1, 2, 3],
        texcoords: vec![4, 5],
        normals: vec![6, 7, 8],
        indices: vec![0, 0, 0],
        material_id,
    }
}

fn material_record(name: &str) -> MaterialRecord {
    MaterialRecord { name: name.to_string(), texture_bytes: two_by_two_image() }
}

#[test]
fn decoding_two_by_two_image_yields_sixteen_bytes() {
    let bytes = two_by_two_image();
    let img = TextureImage::from_bytes(&bytes).unwrap();
    assert_eq!(img.dimensions(), (2, 2));
    let rgba = img.into_diffuse_rgba();
    assert_eq!(rgba.len(), 2 * 2 * 4);
    // The decoder expanded each RGB pixel with an opaque alpha byte.
    assert_eq!(
        rgba,
        vec![
            255, 0, 0, 255, 0, 255, 0, 255, 0, 0, 255, 255, 255, 255, 0, 255,
        ]
    );
}

#[test]
fn decoding_corrupt_bytes_is_a_decode_error() {
    let bytes = b"definitely not an image".to_vec();
    assert_eq!(TextureImage::from_bytes(&bytes).unwrap_err(), LoadError::Decode);
    // A truncated image header fails the same way.
    let truncated = two_by_two_image()[..4].to_vec();
    assert_eq!(TextureImage::from_bytes(&truncated).unwrap_err(), LoadError::Decode);
}

#[test]
fn mesh_interleaves_positions_texcoords_and_normals() {
    let rec = MeshRecord {
        name: "cube".to_string(),
        positions: vec![10, 11, 12, 20, 21, 22],
        texcoords: vec![30, 31, 40, 41],
        normals: vec![50, 51, 52, 60, 61, 62],
        indices: vec![0, 1, 0],
        material_id: Some(3),
    };
    let mesh = Mesh::from_record(&rec);
    assert_eq!(mesh.name, "cube");
    assert_eq!(
        mesh.vertex_data,
        vec![
            10, 11, 12, 30, 31, 50, 51, 52, // vertex 0
            20, 21, 22, 40, 41, 60, 61, 62, // vertex 1
        ]
    );
    assert_eq!(mesh.index_data, vec![0, 1, 0]);
    assert_eq!(mesh.num_elements, 3);
    assert_eq!(mesh.material, 3);
}

#[test]
fn model_holds_one_mesh_and_material_per_record() {
    let meshes = vec![mesh_record("a", Some(1)), mesh_record("b", Some(0)), mesh_record(
        "c",
        None,
    )];
    let materials = vec![material_record("stone"), material_record("wood")];
    let model = Model::from_records(meshes, materials).unwrap();
    assert_eq!(model.meshes.len(), 3);
    assert_eq!(model.materials.len(), 2);
    for mesh in &model.meshes {
        assert!(mesh.material < model.materials.len());
    }
    assert_eq!(model.materials[0].name, "stone");
    assert_eq!(model.materials[1].name, "wood");
    assert_eq!(model.materials[0].diffuse_texture.data().len(), 16);
}

#[test]
fn mesh_without_material_id_resolves_to_material_zero() {
    let meshes = vec![mesh_record("bare", None)];
    let materials = vec![material_record("only")];
    let model = Model::from_records(meshes, materials).unwrap();
    assert_eq!(model.meshes[0].material, 0);
}

#[test]
fn malformed_mesh_record_is_a_parse_error() {
    // Four position words do not form whole x/y/z triples.
    let bad = MeshRecord {
        name: "bad".to_string(),
        positions: vec![1, 2, 3, 4],
        texcoords: vec![4, 5],
        normals: vec![6, 7, 8],
        indices: vec![0],
        material_id: None,
    };
    let err = Model::from_records(vec![bad], vec![material_record("m")]).unwrap_err();
    assert_eq!(err, LoadError::Parse);
}

#[test]
fn out_of_range_material_index_is_a_parse_error() {
    let meshes = vec![mesh_record("a", Some(2))];
    let materials = vec![material_record("only")];
    assert_eq!(Model::from_records(meshes, materials).unwrap_err(), LoadError::Parse);
    // With no materials at all, even the default index 0 is out of range.
    let meshes = vec![mesh_record("a", None)];
    assert_eq!(Model::from_records(meshes, Vec::new()).unwrap_err(), LoadError::Parse);
}

#[test]
fn undecodable_texture_aborts_the_whole_load() {
    let meshes = vec![mesh_record("a", Some(0))];
    let materials = vec![material_record("good"), MaterialRecord {
        name: "broken".to_string(),
        texture_bytes: b"garbage".to_vec(),
    }];
    assert_eq!(Model::from_records(meshes, materials).unwrap_err(), LoadError::Decode);
}

#[test]
fn draw_plan_has_one_call_per_mesh() {
    let meshes = vec![mesh_record("a", Some(1)), mesh_record("b", None)];
    let materials = vec![material_record("stone"), material_record("wood")];
    let model = Model::from_records(meshes, materials).unwrap();
    let calls = model.draw_plan();
    assert_eq!(calls.len(), 2);
    assert_eq!(calls[0].mesh, 0);
    assert_eq!(calls[0].material, 1);
    assert_eq!(calls[0].num_elements, 3);
    assert_eq!((calls[0].instance_start, calls[0].instance_end), (0, 1));
    assert_eq!(calls[1].mesh, 1);
    assert_eq!(calls[1].material, 0);
    let calls = model.draw_plan_instanced((2, 5));
    assert_eq!((calls[1].instance_start, calls[1].instance_end), (2, 5));
}

#[test]
fn vertex_layout_matches_the_interleaved_words() {
    assert_eq!(model_vertex_stride_bytes(), 32);
    let attrs = model_vertex_layout();
    assert_eq!(attrs.len(), 3);
    assert_eq!((attrs[0].offset, attrs[0].shader_location, attrs[0].components), (0, 0, 3));
    assert_eq!((attrs[1].offset, attrs[1].shader_location, attrs[1].components), (12, 1, 2));
    assert_eq!((attrs[2].offset, attrs[2].shader_location, attrs[2].components), (20, 2, 3));
}
