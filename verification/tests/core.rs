use shadowframe::binding::{Binding, BindingError, Globals, TextureBinding};
use shadowframe::camera::{Camera, CameraRaw, CAMERA_RAW_SIZE, PITCH_LIMIT_MDEG};
use shadowframe::layouts::{BindingKind, Layouts, Visibility};
use shadowframe::light::{Light, LIGHT_RAW_SIZE};
use shadowframe::model::{create_plane, quad_indices, Material, MaterialParams, Mesh, Model, MATERIAL_PARAMS_SIZE};
use shadowframe::vec3::Vec3Fx;
use shadowframe::FX_ONE;

fn sample_view_matrix() -> Vec<u32> {
    (0u32..16).map(|i| 0x3F80_0000u32.wrapping_add(i * 0x0101)).collect()
}

fn sample_light() -> Light {
    Light::new(
        Vec3Fx::new(-FX_ONE, 6 * FX_ONE, FX_ONE),
        vec![0xBF80_0000, 0x40C0_0000, 0x3F80_0000],
        vec![0x3F80_0000, 0x3F80_0000, 0x3F80_0000],
        vec![0u32; 16],
    )
}

#[test]
fn pitch_above_limit_clamps_to_upper_bound() {
    let mut camera = Camera::new(Vec3Fx::new(0, FX_ONE, 5 * FX_ONE), 120_000, -90_000, 2_500_000);
    camera.update_view_matrix();
    assert_eq!(camera.pitch_mdeg, PITCH_LIMIT_MDEG);
}

#[test]
fn pitch_below_limit_clamps_to_lower_bound() {
    let mut camera = Camera::new(Vec3Fx::new(0, 0, 0), -1_000_000, 0, 2_500_000);
    camera.update_view_matrix();
    assert_eq!(camera.pitch_mdeg, -PITCH_LIMIT_MDEG);
}

#[test]
fn pitch_inside_limits_is_untouched() {
    let mut camera = Camera::new(Vec3Fx::new(0, 0, 0), 45_500, 10_000, 2_500_000);
    camera.update_view_matrix();
    assert_eq!(camera.pitch_mdeg, 45_500);
    assert_eq!(camera.yaw_mdeg, 10_000);
}

#[test]
fn pose_deltas_accumulate_before_clamping() {
    let mut camera = Camera::new(Vec3Fx::new(0, 0, 0), 80_000, 0, 2_500_000);
    camera.apply_pose_delta(5_000, 20_000, Vec3Fx::new(FX_ONE, 0, -FX_ONE));
    assert_eq!(camera.pitch_mdeg, 100_000);
    assert_eq!(camera.yaw_mdeg, 5_000);
    assert_eq!(camera.position, Vec3Fx::new(FX_ONE, 0, -FX_ONE));
    camera.update_view_matrix();
    assert_eq!(camera.pitch_mdeg, PITCH_LIMIT_MDEG);
}

#[test]
fn camera_block_is_exactly_80_bytes() {
    let raw = CameraRaw::new(sample_view_matrix(), 1, 2, 3);
    let bytes = raw.to_bytes();
    assert_eq!(bytes.len(), CAMERA_RAW_SIZE);
    assert_eq!(bytes.len(), 80);
}

#[test]
fn camera_block_serializes_words_little_endian() {
    let mut words = vec![0u32; 16];
    words[0] = 0x1122_3344;
    let raw = CameraRaw::new(words, 0xAABB_CCDD, 0, 0);
    let bytes = raw.to_bytes();
    assert_eq!(&bytes[0..4], &[0x44, 0x33, 0x22, 0x11]);
    // Position words follow the sixteen matrix words.
    assert_eq!(&bytes[64..68], &[0xDD, 0xCC, 0xBB, 0xAA]);
    // The fourth position lane is the zero pad.
    assert_eq!(&bytes[76..80], &[0, 0, 0, 0]);
}

#[test]
fn light_block_is_exactly_96_bytes_with_zero_pads() {
    let light = sample_light();
    let bytes = light.to_bytes();
    assert_eq!(bytes.len(), LIGHT_RAW_SIZE);
    assert_eq!(bytes.len(), 96);
    // Pad after the three position words.
    assert_eq!(&bytes[12..16], &[0, 0, 0, 0]);
    // Pad after the three color words.
    assert_eq!(&bytes[28..32], &[0, 0, 0, 0]);
}

#[test]
fn material_block_is_exactly_48_bytes() {
    let params = MaterialParams::default();
    let bytes = params.to_bytes();
    assert_eq!(bytes.len(), MATERIAL_PARAMS_SIZE);
    assert_eq!(bytes.len(), 48);
    // Default channels are the 32-bit float one-half.
    assert_eq!(&bytes[0..4], &[0x00, 0x00, 0x00, 0x3F]);
    // Shininess sits in the last lane.
    assert_eq!(&bytes[44..48], &[0x00, 0x00, 0x00, 0x3F]);
}

#[test]
fn layouts_declare_the_block_sizes() {
    let layouts = Layouts::new();
    assert_eq!(layouts.globals_bind_group_layout.entries.len(), 2);
    assert_eq!(
        layouts.globals_bind_group_layout.entries[0].kind,
        BindingKind::UniformBuffer { min_size: 80 },
    );
    assert_eq!(
        layouts.globals_bind_group_layout.entries[1].kind,
        BindingKind::UniformBuffer { min_size: 96 },
    );
    assert_eq!(
        layouts.material_bind_group_layout.entries[0].kind,
        BindingKind::UniformBuffer { min_size: 48 },
    );
    assert_eq!(
        layouts.material_bind_group_layout.entries[0].visibility,
        Visibility::Fragment,
    );
    assert_eq!(layouts.texture_bind_group_layout.entries[0].kind, BindingKind::Texture2d);
    assert_eq!(
        layouts.shadow_texture_bind_group_layout.entries[0].kind,
        BindingKind::TextureCubeDepth,
    );
    assert_eq!(
        layouts.shadow_texture_bind_group_layout.entries[1].kind,
        BindingKind::ComparisonSampler,
    );
}

#[test]
fn create_binding_accepts_matching_blobs() {
    let layouts = Layouts::new();
    let light = sample_light();
    let raw = CameraRaw::new(sample_view_matrix(), 0, 0, 0);
    let globals = Globals { camera_raw: raw, light };
    let resources = globals.to_resources();
    let binding = Binding::create_binding(&layouts.globals_bind_group_layout, &resources, 0)
        .expect("blobs of the declared sizes must be accepted");
    assert_eq!(binding.sizes, vec![80, 96]);
    assert_eq!(binding.bind_index, 0);
}

#[test]
fn create_binding_rejects_wrong_count() {
    let layouts = Layouts::new();
    let resources = vec![vec![0u8; 80]];
    let r = Binding::create_binding(&layouts.globals_bind_group_layout, &resources, 0);
    assert_eq!(r.unwrap_err(), BindingError::CountMismatch);
}

#[test]
fn create_binding_rejects_wrong_size() {
    let layouts = Layouts::new();
    let resources = vec![vec![0u8; 80], vec![0u8; 95]];
    let r = Binding::create_binding(&layouts.globals_bind_group_layout, &resources, 0);
    assert_eq!(r.unwrap_err(), BindingError::SizeMismatch);
}

#[test]
fn update_requires_exactly_matching_blobs() {
    let layouts = Layouts::new();
    let resources = vec![vec![1u8; 80], vec![2u8; 96]];
    let binding = Binding::create_binding(&layouts.globals_bind_group_layout, &resources, 0).unwrap();

    // The matching update passes the blobs through unchanged.
    let updated = binding.update_buffer(vec![vec![9u8; 80], vec![8u8; 96]]).unwrap();
    assert_eq!(updated[0], vec![9u8; 80]);
    assert_eq!(updated[1], vec![8u8; 96]);

    // Too few blobs are a count mismatch, not a truncation.
    assert_eq!(
        binding.update_buffer(vec![vec![9u8; 80]]).unwrap_err(),
        BindingError::CountMismatch,
    );
    // Three blobs are as wrong as one.
    assert_eq!(
        binding.update_buffer(vec![vec![9u8; 80], vec![8u8; 96], vec![7u8; 48]]).unwrap_err(),
        BindingError::CountMismatch,
    );
    // A short blob in the right count is a size mismatch.
    assert_eq!(
        binding.update_buffer(vec![vec![9u8; 80], vec![8u8; 95]]).unwrap_err(),
        BindingError::SizeMismatch,
    );
    assert!(!binding.matches_resources(&vec![vec![0u8; 80], vec![0u8; 97]]));
    assert!(binding.matches_resources(&vec![vec![0u8; 80], vec![0u8; 96]]));
}

#[test]
fn texture_binding_keeps_slot_and_texture() {
    let b = TextureBinding::new(7, 3);
    assert_eq!(b.texture, 7);
    assert_eq!(b.bind_index, 3);
}

#[test]
fn plane_has_one_mesh_of_2400_in_range_indices() {
    let model = create_plane(MaterialParams::default(), 4);
    assert_eq!(model.meshes.len(), 1);
    assert_eq!(model.meshes[0].len_indicies, 2400);
    assert_eq!(model.meshes[0].material_id, Some(0));
    assert_eq!(model.materials.len(), 1);
    assert_eq!(model.materials[0].diffuse_texture, 4);

    let indices = quad_indices(400);
    assert_eq!(indices.len(), 2400);
    assert_eq!(&indices[0..12], &[0, 1, 2, 2, 3, 0, 4, 5, 6, 6, 7, 4]);
    assert!(indices.iter().all(|&i| i < 1600));
    assert_eq!(indices[2394..2400], [1596, 1597, 1598, 1598, 1599, 1596]);
}

#[test]
fn meshes_fall_back_to_the_first_material() {
    let with_id = Mesh { len_indicies: 6, material_id: Some(2) };
    let without = Mesh { len_indicies: 6, material_id: None };
    assert_eq!(with_id.effective_material_id(), 2);
    assert_eq!(without.effective_material_id(), 0);
    let _ = Model {
        meshes: vec![without],
        materials: vec![Material::new(MaterialParams::default(), 0)],
    };
}
