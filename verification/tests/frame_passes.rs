use shadowframe::camera::{Camera, CameraRaw};
use shadowframe::frame::{commands, FrameCmd, MainDraw, ShadowDraw, SceneEntry};
use shadowframe::instance::Instance;
use shadowframe::light::Light;
use shadowframe::model::{Material, MaterialParams, Mesh, Model};
use shadowframe::shadow::{face_direction, face_target, face_up, SHADOW_FACE_COUNT};
use shadowframe::state::State;
use shadowframe::texture::{Texture, TextureError, TextureFormat, ViewDimension, face_view_desc};
use shadowframe::vec3::Vec3Fx;
use shadowframe::vertex::{assemble_vertices, cube_indices, Vertex};
use shadowframe::FX_ONE;

fn fx_to_f32(v: &Vec3Fx) -> glam::Vec3 {
    glam::Vec3::new(
        v.x as f32 / FX_ONE as f32,
        v.y as f32 / FX_ONE as f32,
        v.z as f32 / FX_ONE as f32,
    )
}

fn test_light() -> Light {
    Light::new(
        Vec3Fx::new(-FX_ONE, 6 * FX_ONE, FX_ONE),
        vec![0xBF80_0000, 0x40C0_0000, 0x3F80_0000],
        vec![0x3F80_0000, 0x3F80_0000, 0x3F80_0000],
        vec![0u32; 16],
    )
}

fn test_scene_entries() -> Vec<SceneEntry> {
    let teapots = SceneEntry {
        model: Model {
            meshes: vec![Mesh { len_indicies: 300, material_id: Some(0) }],
            materials: vec![Material::new(MaterialParams::default(), 0)],
        },
        instances: vec![
            Instance::new(vec![1u32; 16]),
            Instance::new(vec![2u32; 16]),
            Instance::new(vec![3u32; 16]),
        ],
    };
    let plane = SceneEntry {
        model: Model {
            meshes: vec![Mesh { len_indicies: 2400, material_id: None }],
            materials: vec![Material::new(MaterialParams::default(), 1)],
        },
        instances: vec![Instance::new(vec![4u32; 16])],
    };
    vec![teapots, plane]
}

fn face_matrices() -> Vec<Vec<u32>> {
    (0u32..6).map(|f| (0u32..16).map(|i| f * 100 + i).collect()).collect()
}

fn planned_state() -> State {
    let camera = Camera::new(Vec3Fx::new(0, FX_ONE, 5 * FX_ONE), 0, -90_000, 2_500_000);
    let raw = CameraRaw::new(vec![0u32; 16], 0, 0, 0);
    let mut state = State::new(camera, raw, test_light(), 800, 600).unwrap();
    for entry in test_scene_entries() {
        state.add_entry(entry);
    }
    state
}

#[test]
fn initial_state_bindings_match_declared_sizes() {
    let state = planned_state();
    assert_eq!(state.globals_uniform.sizes, vec![80, 96]);
    assert_eq!(state.globals_uniform.bind_index, 0);
    assert_eq!(state.light_uniform.sizes, vec![96]);
    assert_eq!(state.material_uniform.sizes, vec![48]);
    assert_eq!(state.material_uniform.bind_index, 2);
    assert_eq!(state.shadow_cube_map.array_layers, 6);
    assert_eq!(state.shadow_cube_map.width, 1024);
    assert_eq!(state.depth_texture.array_layers, 1);
    assert_eq!(state.depth_texture.width, 800);
    assert_eq!(state.depth_texture.height, 600);
    assert_eq!(state.models.entries.len(), 2);
}

// The screen depth buffer takes the surface extent, clamped to at least
// one texel per side.
#[test]
fn depth_buffer_matches_the_window_extent() {
    let camera = Camera::new(Vec3Fx::new(0, FX_ONE, 5 * FX_ONE), 0, -90_000, 2_500_000);
    let raw = CameraRaw::new(vec![0u32; 16], 0, 0, 0);
    let state = State::new(camera, raw, test_light(), 0, 600).unwrap();
    assert_eq!(state.depth_texture.width, 1);
    assert_eq!(state.depth_texture.height, 600);
    assert!(state.depth_texture.comparison_sampler);
}

// Orientation at yaw = -90°, pitch = 0°: with cos(-90°) = 0 and
// sin(-90°) = -1, the components (cos yaw · cos pitch, sin pitch,
// sin yaw · cos pitch) make the camera look along -Z.
#[test]
fn camera_at_minus_ninety_yaw_looks_toward_negative_z() {
    let yaw = (-90.0f64).to_radians();
    let pitch = 0.0f64;
    let sin_yaw = (yaw.sin() * FX_ONE as f64).round() as i64;
    let cos_yaw = (yaw.cos() * FX_ONE as f64).round() as i64;
    let sin_pitch = (pitch.sin() * FX_ONE as f64).round() as i64;
    let cos_pitch = (pitch.cos() * FX_ONE as f64).round() as i64;
    assert_eq!((sin_yaw, cos_yaw, sin_pitch, cos_pitch), (-FX_ONE, 0, 0, FX_ONE));

    let dir = Camera::direction(sin_pitch, cos_pitch, sin_yaw, cos_yaw);
    assert_eq!(dir.x, 0);
    assert_eq!(dir.y, 0);
    assert_eq!(dir.z, -FX_ONE * FX_ONE);
}

// Face 0 (+X): the shadow view target is the light position plus the
// world X axis.
#[test]
fn face_zero_target_is_light_position_plus_x_axis() {
    let eye = Vec3Fx::new(-FX_ONE, 6 * FX_ONE, FX_ONE);
    let target = face_target(&eye, 0);
    assert_eq!(target, Vec3Fx::new(0, 6 * FX_ONE, FX_ONE));
    assert_eq!(face_direction(0), Vec3Fx::new(1, 0, 0));
}

// Face 2 (+Y): the up vector is the negated world Z axis, not world Y.
#[test]
fn face_two_up_vector_is_negative_z() {
    assert_eq!(face_up(2), Vec3Fx::new(0, 0, -1));
    assert_eq!(face_up(3), Vec3Fx::new(0, 0, 1));
    for f in [0usize, 1, 4, 5] {
        assert_eq!(face_up(f), Vec3Fx::new(0, 1, 0));
    }
}

// No face pairs its up vector with a parallel direction: the cross
// product of direction and up is never the zero vector.
#[test]
fn face_frames_are_never_degenerate() {
    for f in 0..SHADOW_FACE_COUNT {
        let d = face_direction(f);
        let u = face_up(f);
        let c = d.cross(&u);
        assert!(c.x != 0 || c.y != 0 || c.z != 0, "face {f} has a degenerate frame");
    }
}

// Six shadow iterations produce six distinct view-projection matrices
// when computed from the library's face table with the real matrix math.
#[test]
fn six_faces_give_six_distinct_view_projections() {
    let eye_fx = Vec3Fx::new(-FX_ONE, 6 * FX_ONE, FX_ONE);
    let eye = fx_to_f32(&eye_fx);
    let perspective =
        glam::camera::lh::proj::directx::perspective(90.0f32.to_radians(), 1.0, 0.1, 100.0);
    let mats: Vec<[f32; 16]> = (0..SHADOW_FACE_COUNT)
        .map(|f| {
            let target = fx_to_f32(&face_target(&eye_fx, f));
            let up = fx_to_f32(&face_up(f));
            (perspective * glam::camera::lh::view::look_at_mat4(eye, target, up)).to_cols_array()
        })
        .collect();
    for i in 0..6 {
        for j in (i + 1)..6 {
            assert_ne!(mats[i], mats[j], "faces {i} and {j} share a matrix");
        }
    }
}

#[test]
fn plan_covers_every_mesh_with_its_material() {
    let mut state = planned_state();
    let plan = state.render(vec![7u32; 16], 1, 2, 3, &face_matrices());
    assert_eq!(
        plan.main.draws,
        vec![
            MainDraw { entry: 0, mesh: 0, index_count: 300, instance_count: 3, material_id: 0 },
            MainDraw { entry: 1, mesh: 0, index_count: 2400, instance_count: 1, material_id: 0 },
        ],
    );
    assert_eq!(plan.main.marker_index_count, 36);
    assert_eq!(plan.main.camera_bytes.len(), 80);
    assert_eq!(plan.main.light_bytes.len(), 96);
    assert_eq!(plan.main.instance_buffers.len(), 2);
    assert_eq!(plan.main.instance_buffers[0].len(), 3 * 64);
    assert_eq!(plan.main.instance_buffers[1].len(), 64);
    for (f, fp) in plan.shadow_faces.iter().enumerate() {
        assert_eq!(fp.face, f);
        assert_eq!(fp.light_bytes.len(), 96);
        assert_eq!(
            fp.draws,
            vec![
                ShadowDraw { entry: 0, mesh: 0, index_count: 300, instance_count: 3 },
                ShadowDraw { entry: 1, mesh: 0, index_count: 2400, instance_count: 1 },
            ],
        );
    }
    // The light leaves the frame holding the last face's matrix.
    assert_eq!(state.light.view_proj, face_matrices()[5]);
}

#[test]
fn six_distinct_face_matrices_give_six_distinct_light_blocks() {
    let mut state = planned_state();
    let plan = state.render(vec![7u32; 16], 1, 2, 3, &face_matrices());
    for i in 0..6 {
        for j in (i + 1)..6 {
            assert_ne!(plan.shadow_faces[i].light_bytes, plan.shadow_faces[j].light_bytes);
        }
    }
}

#[test]
fn no_main_command_is_recorded_before_the_shadow_phase_ends() {
    let mut state = planned_state();
    let plan = state.render(vec![7u32; 16], 1, 2, 3, &face_matrices());
    let cmds = commands(&plan);

    let is_shadow = |c: &FrameCmd| {
        matches!(
            c,
            FrameCmd::WriteLightBlock { .. }
                | FrameCmd::BeginShadowFace { .. }
                | FrameCmd::ShadowDrawCmd { .. }
        )
    };
    let last_shadow = cmds.iter().rposition(|c| is_shadow(c)).unwrap();
    let first_main = cmds.iter().position(|c| !is_shadow(c)).unwrap();
    assert!(last_shadow < first_main);

    let begins: Vec<usize> = (0..cmds.len())
        .filter(|&k| matches!(cmds[k], FrameCmd::BeginShadowFace { .. }))
        .collect();
    assert_eq!(begins.len(), 6);
    for (f, &k) in begins.iter().enumerate() {
        assert_eq!(cmds[k], FrameCmd::BeginShadowFace { face: f });
        assert!(k < first_main);
    }
    assert_eq!(cmds[0], FrameCmd::WriteLightBlock { face: 0 });
    assert_eq!(cmds[first_main], FrameCmd::UpdateGlobals);
    assert_eq!(cmds[first_main + 1], FrameCmd::BeginMainPass);
    assert_eq!(cmds[first_main + 2], FrameCmd::DrawLightMarker);
    assert_eq!(cmds[cmds.len() - 1], FrameCmd::Present);
    assert_eq!(
        cmds.iter().filter(|c| matches!(c, FrameCmd::MainDrawCmd { .. })).count(),
        2,
    );
}

// Every pixel of the solid-color fallback image holds the exact RGBA
// value it was created with.
#[test]
fn solid_color_texture_is_8_by_8_of_the_exact_color() {
    let (texture, upload) = Texture::create_solid_color_texture(125, 125, 125, 125);
    assert_eq!(texture.width, 8);
    assert_eq!(texture.height, 8);
    assert_eq!(texture.format, TextureFormat::Rgba8);
    assert_eq!(upload.bytes.len(), 256);
    assert!(upload.bytes.iter().all(|&b| b == 125));
    assert_eq!(upload.bytes_per_row, 32);
    assert_eq!(upload.rows_per_image, 8);

    let (_, colored) = Texture::create_solid_color_texture(10, 20, 30, 40);
    for px in colored.bytes.chunks(4) {
        assert_eq!(px, &[10, 20, 30, 40]);
    }
}

#[test]
fn depth_textures_clamp_extent_and_compare() {
    let t = Texture::create_depth_texture(0, 600, 1);
    assert_eq!(t.width, 1);
    assert_eq!(t.height, 600);
    assert_eq!(t.format, TextureFormat::Depth32);
    assert!(t.comparison_sampler);

    let cube = Texture::create_cube_depth_texture(1024, 1024);
    assert_eq!(cube.array_layers, 6);
    assert_eq!(cube.view_dimension, ViewDimension::Cube);

    let view = face_view_desc(4);
    assert_eq!(view.base_array_layer, 4);
    assert_eq!(view.array_layer_count, 1);
    assert_eq!(view.dimension, ViewDimension::D2);
}

#[test]
fn load_texture_accepts_only_four_bytes_per_pixel() {
    let ok = Texture::load_texture(2, 3, vec![0u8; 24]).unwrap();
    assert_eq!(ok.1.bytes_per_row, 8);
    assert_eq!(ok.1.rows_per_image, 3);
    let err = Texture::load_texture(2, 3, vec![0u8; 23]).unwrap_err();
    assert_eq!(err, TextureError::SizeMismatch);
}

#[test]
fn vertices_interleave_from_flat_arrays() {
    let positions: Vec<u32> = (0..6).collect();
    let texcoords: Vec<u32> = (100..104).collect();
    let normals: Vec<u32> = (200..206).collect();
    let vs = assemble_vertices(&positions, &texcoords, &normals);
    assert_eq!(vs.len(), 2);
    assert_eq!(vs[0], Vertex { pos: [0, 1, 2], tex_cords: [100, 101], normals: [200, 201, 202] });
    assert_eq!(vs[1], Vertex { pos: [3, 4, 5], tex_cords: [102, 103], normals: [203, 204, 205] });
}

#[test]
fn vertex_and_index_buffers_serialize_little_endian() {
    let vs = vec![Vertex { pos: [1, 2, 3], tex_cords: [4, 5], normals: [6, 7, 0x0A0B0C0D] }];
    let idx = vec![0u32, 1, 2];
    let (vbytes, ibytes) = Vertex::make_buffers(&vs, &idx);
    assert_eq!(vbytes.len(), 32);
    assert_eq!(&vbytes[0..4], &[1, 0, 0, 0]);
    assert_eq!(&vbytes[28..32], &[0x0D, 0x0C, 0x0B, 0x0A]);
    assert_eq!(ibytes.len(), 12);
    assert_eq!(&ibytes[4..8], &[1, 0, 0, 0]);
}

#[test]
fn vertex_layouts_tile_their_strides() {
    let v = Vertex::desc();
    assert_eq!(v.array_stride, 32);
    assert_eq!(v.attributes.len(), 3);
    assert_eq!((v.attributes[1].offset, v.attributes[1].size), (12, 8));
    let i = Instance::desc();
    assert_eq!(i.array_stride, 64);
    assert_eq!(i.attributes.len(), 4);
    assert_eq!(i.attributes[3].offset, 48);
    assert_eq!(i.attributes[3].shader_location, 6);
}

#[test]
fn instance_buffer_is_64_bytes_per_instance_in_order() {
    let instances = vec![Instance::new((0..16).collect()), Instance::new((16..32).collect())];
    let bytes = Instance::make_buffer(&instances);
    assert_eq!(bytes.len(), 128);
    assert_eq!(&bytes[0..4], &[0, 0, 0, 0]);
    assert_eq!(&bytes[64..68], &[16, 0, 0, 0]);
}

#[test]
fn cube_index_list_matches_the_quad_pattern() {
    let idx = cube_indices();
    let expected: Vec<u32> = vec![
        0, 1, 2, 2, 3, 0, 4, 5, 6, 6, 7, 4, 8, 9, 10, 10, 11, 8, 12, 13, 14, 14, 15, 12, 16, 17,
        18, 18, 19, 16, 20, 21, 22, 22, 23, 20,
    ];
    assert_eq!(idx, expected);
}
