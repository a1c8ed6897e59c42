//! The binding-set layout registry.
//!
//! Every pipeline and every binding set in the renderer must structurally
//! match one of five layout shapes: globals (camera + light), light-only,
//! material parameters, diffuse texture + sampler, and shadow-cube texture
//! + comparison sampler.  The shapes are plain data — binding index,
//! resource kind, minimum byte size, visible stages — created once and
//! shared; the registry is the single source of truth they come from.

use vstd::prelude::*;
use crate::camera::CAMERA_RAW_SIZE;
use crate::light::LIGHT_RAW_SIZE;
use crate::model::MATERIAL_PARAMS_SIZE;

verus! {

/// The shader stages a binding is visible to.
#[derive(Clone, Copy, PartialEq, Eq, Structural, Debug)]
pub enum Visibility {
    Vertex,
    Fragment,
    VertexFragment,
}

/// What kind of resource a binding slot takes.
#[derive(Clone, Copy, PartialEq, Eq, Structural, Debug)]
pub enum BindingKind {
    /// A uniform buffer of at least `min_size` bytes.
    UniformBuffer { min_size: usize },
    /// A filterable 2D float texture.
    Texture2d,
    /// A cube-shaped depth texture.
    TextureCubeDepth,
    /// A filtering sampler.
    FilteringSampler,
    /// A comparison sampler, for shadow lookups.
    ComparisonSampler,
}

/// One slot of a layout shape.
#[derive(Clone, Copy, PartialEq, Eq, Structural, Debug)]
pub struct LayoutEntry {
    pub binding: u32,
    pub visibility: Visibility,
    pub kind: BindingKind,
}

/// A layout shape: the slots a binding set must fill, in binding order.
pub struct LayoutShape {
    pub entries: Vec<LayoutEntry>,
}

impl LayoutShape {
    /// Slots are numbered consecutively from zero.
    pub open spec fn wf(self) -> bool {
        forall|i: int| 0 <= i < self.entries@.len() ==> (#[trigger] self.entries@[i]).binding == i
    }

    /// Whether every slot is a uniform buffer, so the shape can back a
    /// buffer-list binding.
    pub open spec fn is_uniform_shape(self) -> bool {
        forall|i: int|
            0 <= i < self.entries@.len() ==> (#[trigger] self.entries@[i]).kind matches
                BindingKind::UniformBuffer { .. }
    }

    /// The declared minimum byte size of slot `i`, for uniform slots.
    pub open spec fn spec_min_size(self, i: int) -> int {
        match self.entries@[i].kind {
            BindingKind::UniformBuffer { min_size } => min_size as int,
            _ => 0,
        }
    }
}

/// A type that declares the layout shape its binding sets are built
/// against.
pub trait Bindeable {
    fn bind_group_layout() -> LayoutShape;
}

/// Builds a single-entry uniform-buffer shape.
pub fn uniform_shape(visibility: Visibility, min_size: usize) -> (r: LayoutShape)
    ensures
        r.wf(),
        r.is_uniform_shape(),
        r.entries@.len() == 1,
        r.entries@[0] == (LayoutEntry {
            binding: 0,
            visibility,
            kind: BindingKind::UniformBuffer { min_size },
        }),
{
    let mut entries: Vec<LayoutEntry> = Vec::new();
    entries.push(LayoutEntry { binding: 0, visibility, kind: BindingKind::UniformBuffer { min_size } });
    LayoutShape { entries }
}

/// The five layout shapes of the renderer, created once and shared.
pub struct Layouts {
    pub camera_bind_group_layout: LayoutShape,
    pub light_bind_group_layout: LayoutShape,
    pub material_bind_group_layout: LayoutShape,
    pub texture_bind_group_layout: LayoutShape,
    pub globals_bind_group_layout: LayoutShape,
    pub shadow_texture_bind_group_layout: LayoutShape,
}

impl Layouts {
    /// States the exact shape of each layout: slot order, resource kind,
    /// declared minimum sizes (80 for the camera block, 96 for the light
    /// block, 48 for the material block), and stage visibility.
    pub fn new() -> (r: Layouts)
        ensures
            r.camera_bind_group_layout.entries@ =~= seq![
                LayoutEntry {
                    binding: 0,
                    visibility: Visibility::VertexFragment,
                    kind: BindingKind::UniformBuffer { min_size: CAMERA_RAW_SIZE },
                },
            ],
            r.light_bind_group_layout.entries@ =~= seq![
                LayoutEntry {
                    binding: 0,
                    visibility: Visibility::VertexFragment,
                    kind: BindingKind::UniformBuffer { min_size: LIGHT_RAW_SIZE },
                },
            ],
            r.material_bind_group_layout.entries@ =~= seq![
                LayoutEntry {
                    binding: 0,
                    visibility: Visibility::Fragment,
                    kind: BindingKind::UniformBuffer { min_size: MATERIAL_PARAMS_SIZE },
                },
            ],
            r.globals_bind_group_layout.entries@ =~= seq![
                LayoutEntry {
                    binding: 0,
                    visibility: Visibility::VertexFragment,
                    kind: BindingKind::UniformBuffer { min_size: CAMERA_RAW_SIZE },
                },
                LayoutEntry {
                    binding: 1,
                    visibility: Visibility::VertexFragment,
                    kind: BindingKind::UniformBuffer { min_size: LIGHT_RAW_SIZE },
                },
            ],
            r.texture_bind_group_layout.entries@ =~= seq![
                LayoutEntry {
                    binding: 0,
                    visibility: Visibility::Fragment,
                    kind: BindingKind::Texture2d,
                },
                LayoutEntry {
                    binding: 1,
                    visibility: Visibility::Fragment,
                    kind: BindingKind::FilteringSampler,
                },
            ],
            r.shadow_texture_bind_group_layout.entries@ =~= seq![
                LayoutEntry {
                    binding: 0,
                    visibility: Visibility::Fragment,
                    kind: BindingKind::TextureCubeDepth,
                },
                LayoutEntry {
                    binding: 1,
                    visibility: Visibility::Fragment,
                    kind: BindingKind::ComparisonSampler,
                },
            ],
            r.camera_bind_group_layout.wf(),
            r.light_bind_group_layout.wf(),
            r.material_bind_group_layout.wf(),
            r.globals_bind_group_layout.wf(),
            r.texture_bind_group_layout.wf(),
            r.shadow_texture_bind_group_layout.wf(),
            r.camera_bind_group_layout.is_uniform_shape(),
            r.light_bind_group_layout.is_uniform_shape(),
            r.material_bind_group_layout.is_uniform_shape(),
            r.globals_bind_group_layout.is_uniform_shape(),
    {
        let camera_bind_group_layout = crate::camera::CameraRaw::bind_group_layout();
        let light_bind_group_layout = crate::light::Light::bind_group_layout();
        let material_bind_group_layout = crate::model::MaterialParams::bind_group_layout();
        let texture_bind_group_layout = crate::binding::TextureBinding::bind_group_layout();
        let globals_bind_group_layout = crate::binding::Globals::bind_group_layout();
        let shadow_texture_bind_group_layout =
            crate::binding::TextureBinding::shadow_texture_bind_group_layout();
        Layouts {
            camera_bind_group_layout,
            light_bind_group_layout,
            material_bind_group_layout,
            texture_bind_group_layout,
            globals_bind_group_layout,
            shadow_texture_bind_group_layout,
        }
    }
}

} // verus!
