use std::io::Cursor;

use render_core::bindings::{BindGroup, BindGroupLayout, BindingKind, LayoutKind};
use render_core::model::{MaterialData, MeshData, Model, LoadError};
use render_core::texture::{Texture, TextureError};

fn png_bytes(width: u32, height: u32) -> Vec<u8> {
    let mut img = image::RgbaImage::new(width, height);
    for (x, y, p) in img.enumerate_pixels_mut() {
        *p = image::Rgba([x as u8, y as u8, 7, 255]);
    }
    let mut out = Cursor::new(Vec::new());
    img.write_to(&mut out, image::ImageOutputFormat::Png).unwrap();
    out.into_inner()
}

fn texture_layout() -> BindGroupLayout {
    BindGroupLayout::new(LayoutKind::TextureMaterial)
}

#[test]
fn texture_decodes_to_exact_upload() {
    let bytes = png_bytes(2, 3);
    let (texture, upload) = Texture::new(&bytes).unwrap();
    assert_eq!(texture.extent.width, 2);
    assert_eq!(texture.extent.height, 3);
    assert_eq!(upload.bytes_per_row, 8);
    assert_eq!(upload.rows_per_image, 3);
    // The decoded pixels, row-major RGBA: not the encoded bytes handed in.
    let mut expected = Vec::new();
    for y in 0..3u8 {
        for x in 0..2u8 {
            expected.extend_from_slice(&[x, y, 7, 255]);
        }
    }
    assert_eq!(upload.data, expected);
    assert_ne!(upload.data, bytes);
}

#[test]
fn unreadable_texture_is_a_decode_error() {
    let garbage = vec![0x00u8, 0x01, 0x02, 0x03];
    match Texture::new(&garbage) {
        Err(TextureError::Decode) => {}
        other => panic!("expected a decode error, got {:?}", other.map(|_| ())),
    }
}

fn triangle_mesh(material_id: Option<usize>) -> MeshData {
    MeshData {
        positions: (0..9).map(|i| 0x3F00_0000 + i).collect(),
        texcoords: (0..6).map(|i| 0x3E00_0000 + i).collect(),
        normals: (0..9).map(|i| 0x3D00_0000 + i).collect(),
        indices: vec![0, 1, 2],
        material_id,
    }
}

fn one_material() -> MaterialData {
    MaterialData { name: String::from("harold"), diffuse_bytes: png_bytes(1, 1) }
}

#[test]
fn model_groups_flat_arrays_into_vertices() {
    let meshes = vec![triangle_mesh(Some(0))];
    let materials = vec![one_material()];
    let layout = texture_layout();
    let (model, uploads) = Model::load_model(&meshes, &materials, &layout).unwrap();

    assert_eq!(model.meshes.len(), 1);
    assert_eq!(model.materials.len(), 1);
    assert_eq!(uploads.len(), 1);

    let mesh = &model.meshes[0];
    assert_eq!(mesh.vertices.len(), 3);
    assert_eq!(mesh.num_elements, 3);
    assert_eq!(mesh.material, 0);
    assert_eq!(mesh.indices, vec![0, 1, 2]);

    let v1 = &mesh.vertices[1];
    assert_eq!(v1.position, [0x3F00_0003, 0x3F00_0004, 0x3F00_0005]);
    assert_eq!(v1.tex_coords, [0x3E00_0002, 0x3E00_0003]);
    assert_eq!(v1.normals, [0x3D00_0003, 0x3D00_0004, 0x3D00_0005]);

    assert_eq!(model.materials[0].name, "harold");
    assert_eq!(model.materials[0].diffuse_texture.extent.width, 1);
}

#[test]
fn absent_material_assignment_falls_back_to_first() {
    let meshes = vec![triangle_mesh(None)];
    let materials = vec![one_material()];
    let layout = texture_layout();
    let (model, _) = Model::load_model(&meshes, &materials, &layout).unwrap();
    assert_eq!(model.meshes[0].material, 0);
}

#[test]
fn missing_attributes_are_fatal_load_errors() {
    let layout = texture_layout();
    let materials = vec![one_material()];

    let mut no_normals = triangle_mesh(Some(0));
    no_normals.normals = vec![0; 3];
    match Model::load_model(&vec![no_normals], &materials, &layout) {
        Err(LoadError::MissingNormals { mesh: 0 }) => {}
        other => panic!("expected missing normals, got {:?}", other.err()),
    }

    let mut no_texcoords = triangle_mesh(Some(0));
    no_texcoords.texcoords = Vec::new();
    match Model::load_model(&vec![no_texcoords], &materials, &layout) {
        Err(LoadError::MissingTexCoords { mesh: 0 }) => {}
        other => panic!("expected missing texcoords, got {:?}", other.err()),
    }

    let mut ragged = triangle_mesh(Some(0));
    ragged.positions.pop();
    ragged.normals.pop();
    match Model::load_model(&vec![ragged], &materials, &layout) {
        Err(LoadError::BadPositions { mesh: 0 }) => {}
        other => panic!("expected bad positions, got {:?}", other.err()),
    }
}

#[test]
fn material_index_must_be_valid() {
    let layout = texture_layout();
    match Model::load_model(&vec![triangle_mesh(Some(1))], &vec![one_material()], &layout) {
        Err(LoadError::BadMaterialIndex { mesh: 0 }) => {}
        other => panic!("expected a bad material index, got {:?}", other.err()),
    }
    // No materials at all: the absent assignment has nothing to fall
    // back to.
    match Model::load_model(&vec![triangle_mesh(None)], &Vec::new(), &layout) {
        Err(LoadError::BadMaterialIndex { mesh: 0 }) => {}
        other => panic!("expected a bad material index, got {:?}", other.err()),
    }
}

#[test]
fn undecodable_material_texture_fails_the_load() {
    let layout = texture_layout();
    let bad = MaterialData { name: String::from("broken"), diffuse_bytes: vec![1, 2, 3] };
    match Model::load_model(&vec![triangle_mesh(Some(0))], &vec![bad], &layout) {
        Err(LoadError::Texture { material: 0, error: TextureError::Decode }) => {}
        other => panic!("expected a texture error, got {:?}", other.err()),
    }
}

#[test]
fn bind_group_must_match_its_layout_exactly() {
    let camera = BindGroupLayout::new(LayoutKind::Camera);
    let ok = BindGroup::new(&camera, &vec![BindingKind::Uniform]);
    assert_eq!(ok.unwrap().layout, LayoutKind::Camera);

    let wrong_kind = BindGroup::new(&camera, &vec![BindingKind::Sampler]);
    assert_eq!(wrong_kind.unwrap_err().binding, 0);

    let texture = texture_layout();
    let too_short = BindGroup::new(&texture, &vec![BindingKind::SampledTexture]);
    assert_eq!(too_short.unwrap_err().binding, 1);

    let swapped = BindGroup::new(
        &texture,
        &vec![BindingKind::Sampler, BindingKind::SampledTexture],
    );
    assert_eq!(swapped.unwrap_err().binding, 0);
}
