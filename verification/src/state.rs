//! The renderer's long-lived state.
//!
//! One explicit top-level value owns the camera, the light, the layout
//! registry, the three uniform bindings, the depth and shadow-cube
//! texture descriptions, and the scene.  Construction proves the
//! structural contracts hold — every initial uniform blob fits its
//! layout's declared slots, so building the bindings cannot fail — and
//! each frame turns the state into a [`FramePlan`] for the caller to
//! execute.

use vstd::prelude::*;
use crate::binding::{Binding, BindingError};
use crate::camera::{Camera, CameraRaw, CAMERA_RAW_SIZE};
use crate::frame::{plan_frame, spec_main_draws, spec_shadow_draws, FramePlan, Scene, SceneEntry};
use crate::layouts::Layouts;
use crate::light::{Light, LIGHT_RAW_SIZE};
use crate::model::{MaterialParams, MATERIAL_PARAMS_SIZE};
use crate::bytes::words_le_bytes;
use crate::instance::Instance;
use crate::shadow::SHADOW_FACE_COUNT;
use crate::texture::{Texture, TextureFormat};

verus! {

/// Side length of the shadow cube's square faces, in texels.
pub const SHADOW_MAP_SIZE: u32 = 1024;

/// The renderer's state: everything a frame reads, and the transient
/// light matrix a frame writes.
pub struct State {
    pub camera: Camera,
    pub light: Light,
    pub layouts: Layouts,
    /// Camera block and light block at slot 0 of the main pass.
    pub globals_uniform: Binding,
    /// Light block at slot 0 of the shadow pass.
    pub light_uniform: Binding,
    /// Material block at slot 2 of the main pass, overwritten per draw.
    pub material_uniform: Binding,
    /// The screen depth buffer.
    pub depth_texture: Texture,
    /// The six-layer shadow cube.
    pub shadow_cube_map: Texture,
    /// The drawable scene entries.
    pub models: Scene,
}

impl State {
    /// The structural facts every frame relies on: the scene is well
    /// formed, the light block is complete, and each uniform binding
    /// holds exactly the buffers of its declared sizes at its fixed slot.
    pub open spec fn wf(self) -> bool {
        &&& self.light.wf()
        &&& self.models.wf()
        &&& self.globals_uniform.spec_sizes() == seq![
            CAMERA_RAW_SIZE as int,
            LIGHT_RAW_SIZE as int,
        ]
        &&& self.globals_uniform.bind_index == 0
        &&& self.light_uniform.spec_sizes() == seq![LIGHT_RAW_SIZE as int]
        &&& self.light_uniform.bind_index == 0
        &&& self.material_uniform.spec_sizes() == seq![MATERIAL_PARAMS_SIZE as int]
        &&& self.material_uniform.bind_index == 2
        &&& self.shadow_cube_map.array_layers == 6
    }

    /// Builds the initial state: the layout registry, the three uniform
    /// bindings filled with the initial camera, light and default
    /// material blocks, the depth buffer for a `width` × `height`
    /// surface, the shadow cube, and an empty scene.  Because the three
    /// blocks serialize to exactly the sizes the layouts declare,
    /// construction always succeeds.
    pub fn new(camera: Camera, camera_raw: CameraRaw, light: Light, width: u32, height: u32) -> (r:
        Result<State, BindingError>)
        requires
            camera_raw.wf(),
            light.wf(),
        ensures
            r is Ok,
            r matches Ok(s) ==> {
                &&& s.wf()
                &&& s.camera == camera
                &&& s.light == light
                &&& s.models.entries@.len() == 0
                &&& s.depth_texture.width == (if width == 0 { 1u32 } else { width })
                &&& s.depth_texture.height == (if height == 0 { 1u32 } else { height })
                &&& s.depth_texture.array_layers == 1
                &&& s.depth_texture.format == TextureFormat::Depth32
                &&& s.depth_texture.comparison_sampler
                &&& s.shadow_cube_map.width == SHADOW_MAP_SIZE
                &&& s.shadow_cube_map.height == SHADOW_MAP_SIZE
            },
    {
        let layouts = Layouts::new();

        let mut globals_resources: Vec<Vec<u8>> = Vec::new();
        globals_resources.push(camera_raw.to_bytes());
        globals_resources.push(light.to_bytes());
        proof {
            assert(globals_resources@.map_values(|b: Vec<u8>| b@).len() == 2);
            assert(Binding::spec_layout_sizes(layouts.globals_bind_group_layout)
                =~= seq![CAMERA_RAW_SIZE as int, LIGHT_RAW_SIZE as int]);
        }
        let globals_uniform = Binding::create_binding(
            &layouts.globals_bind_group_layout,
            &globals_resources,
            0,
        )?;

        let mut light_resources: Vec<Vec<u8>> = Vec::new();
        light_resources.push(light.to_bytes());
        proof {
            assert(Binding::spec_layout_sizes(layouts.light_bind_group_layout)
                =~= seq![LIGHT_RAW_SIZE as int]);
        }
        let light_uniform = Binding::create_binding(
            &layouts.light_bind_group_layout,
            &light_resources,
            0,
        )?;

        let default_params = MaterialParams::default();
        let mut material_resources: Vec<Vec<u8>> = Vec::new();
        material_resources.push(default_params.to_bytes());
        proof {
            assert(Binding::spec_layout_sizes(layouts.material_bind_group_layout)
                =~= seq![MATERIAL_PARAMS_SIZE as int]);
        }
        let material_uniform = Binding::create_binding(
            &layouts.material_bind_group_layout,
            &material_resources,
            2,
        )?;

        let depth_texture = Texture::create_depth_texture(width, height, 1);
        let shadow_cube_map = Texture::create_cube_depth_texture(SHADOW_MAP_SIZE, SHADOW_MAP_SIZE);

        Ok(State {
            camera,
            light,
            layouts,
            globals_uniform,
            light_uniform,
            material_uniform,
            depth_texture,
            shadow_cube_map,
            models: Scene { entries: Vec::new() },
        })
    }

    /// Adds one drawable entry to the scene.
    pub fn add_entry(&mut self, entry: SceneEntry)
        requires
            entry.wf(),
        ensures
            final(self).models.entries@ == old(self).models.entries@.push(entry),
            old(self).wf() ==> final(self).wf(),
            final(self).camera == old(self).camera,
            final(self).light == old(self).light,
    {
        self.models.entries.push(entry);
    }

    /// Plans one frame from the current state.  `view_matrix` and the
    /// three position words are the caller-computed camera snapshot;
    /// `face_mats` are the six shadow-face view-projection matrices.  The
    /// scene and camera are read only; the light leaves holding the last
    /// face's matrix, which is also the light block the main pass
    /// uploads.
    pub fn render(
        &mut self,
        view_matrix: Vec<u32>,
        px: u32,
        py: u32,
        pz: u32,
        face_mats: &Vec<Vec<u32>>,
    ) -> (p: FramePlan)
        requires
            old(self).wf(),
            view_matrix@.len() == 16,
            face_mats@.len() == SHADOW_FACE_COUNT,
            forall|f: int| 0 <= f < face_mats@.len() ==> (#[trigger] face_mats@[f])@.len() == 16,
        ensures
            p.wf(),
            forall|f: int|
                0 <= f < SHADOW_FACE_COUNT ==> (#[trigger] p.shadow_faces@[f]).light_bytes@ == old(
                    self,
                ).light.spec_bytes_with_view(face_mats@[f]@),
            forall|f: int|
                0 <= f < SHADOW_FACE_COUNT ==> (#[trigger] p.shadow_faces@[f]).draws@
                    == spec_shadow_draws(old(self).models),
            forall|f: int|
                0 <= f < SHADOW_FACE_COUNT ==> (#[trigger] p.shadow_faces@[f]).instance_buffers@.len()
                    == old(self).models.entries@.len(),
            forall|f: int, e: int|
                0 <= f < SHADOW_FACE_COUNT && 0 <= e < old(self).models.entries@.len()
                    ==> (#[trigger] p.shadow_faces@[f].instance_buffers@[e])@ == words_le_bytes(
                    Instance::spec_instances_words(old(self).models.entries@[e].instances@),
                ),
            forall|f: int, e: int|
                0 <= f < SHADOW_FACE_COUNT && 0 <= e < old(self).models.entries@.len()
                    ==> (#[trigger] p.shadow_faces@[f].instance_buffers@[e])@.len() == 64
                    * old(self).models.entries@[e].instances@.len(),
            p.main.draws@ == spec_main_draws(old(self).models),
            p.main.marker_index_count == 36,
            p.main.instance_buffers@.len() == old(self).models.entries@.len(),
            forall|e: int|
                0 <= e < old(self).models.entries@.len() ==> (#[trigger] p.main.instance_buffers@[
                    e
                ])@ == words_le_bytes(
                    Instance::spec_instances_words(old(self).models.entries@[e].instances@),
                ),
            forall|e: int|
                0 <= e < old(self).models.entries@.len() ==> (#[trigger] p.main.instance_buffers@[
                    e
                ])@.len() == 64 * old(self).models.entries@[e].instances@.len(),
            p.main.light_bytes@ == old(self).light.spec_bytes_with_view(face_mats@[5]@),
            p.main.camera_bytes@ == crate::bytes::words_le_bytes(
                view_matrix@ + seq![px, py, pz, 0u32],
            ),
            p.main.camera_bytes@.len() == CAMERA_RAW_SIZE,
            final(self).wf(),
            final(self).camera == old(self).camera,
            final(self).models.entries@ == old(self).models.entries@,
            final(self).light.view_proj@ == face_mats@[5]@,
            final(self).light.position == old(self).light.position,
    {
        let camera_raw = self.camera.to_camera_raw(view_matrix, px, py, pz);
        proof {
            crate::camera::lemma_camera_block_size(camera_raw);
        }
        plan_frame(&self.models, &camera_raw, &mut self.light, face_mats)
    }
}

} // verus!
