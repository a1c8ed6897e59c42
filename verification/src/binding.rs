//! Uniform-buffer bindings and texture bindings.
//!
//! A [`Binding`] pairs a fixed list of uniform buffers with the slot index
//! the set is attached at.  The buffer count and byte sizes are fixed when
//! the binding is created against a layout shape; an update must supply
//! exactly as many byte blobs, of exactly the original sizes, in the same
//! order — a mismatch is reported, never silently truncated.  A
//! [`TextureBinding`] pairs one texture with a slot; it is immutable, and a
//! different texture view needs a freshly built binding.

use vstd::prelude::*;
use crate::camera::CameraRaw;
use crate::layouts::{Bindeable, BindingKind, LayoutEntry, LayoutShape, Visibility};
use crate::light::Light;

verus! {

/// Why a binding could not be created or updated.
#[derive(Clone, Copy, PartialEq, Eq, Structural, Debug)]
pub enum BindingError {
    /// The number of byte blobs differs from the number of declared slots.
    CountMismatch,
    /// Some blob's byte length differs from its slot's declared size.
    SizeMismatch,
}

/// The blobs fill the declared slots exactly: same count, and each blob's
/// length equals the matching slot's declared size.
pub open spec fn spec_blobs_fit(sizes: Seq<int>, blobs: Seq<Seq<u8>>) -> bool {
    &&& blobs.len() == sizes.len()
    &&& forall|i: int| 0 <= i < blobs.len() ==> (#[trigger] blobs[i]).len() == sizes[i]
}

/// A uniform binding: one buffer per declared slot, attached at a fixed
/// slot index.  `sizes` records each buffer's byte length, fixed for the
/// binding's lifetime.
#[derive(Debug)]
pub struct Binding {
    pub sizes: Vec<usize>,
    pub bind_index: u32,
}

impl Binding {
    /// The declared sizes as mathematical integers.
    pub open spec fn spec_sizes(self) -> Seq<int> {
        self.sizes@.map_values(|s: usize| s as int)
    }

    /// The declared byte sizes of a uniform layout shape, slot by slot.
    pub open spec fn spec_layout_sizes(layout: LayoutShape) -> Seq<int> {
        Seq::new(layout.entries@.len(), |i: int| layout.spec_min_size(i))
    }

    /// Creates a binding against `layout`: one buffer per content blob,
    /// where blob `i` backs binding slot `i`.  Succeeds exactly when the
    /// blobs fill the layout's declared slots; a count or size mismatch is
    /// the corresponding error.
    pub fn create_binding(layout: &LayoutShape, resources: &Vec<Vec<u8>>, bind_index: u32) -> (r: Result<
        Binding,
        BindingError,
    >)
        requires
            layout.is_uniform_shape(),
        ensures
            r is Ok <==> spec_blobs_fit(
                Self::spec_layout_sizes(*layout),
                resources@.map_values(|b: Vec<u8>| b@),
            ),
            r matches Ok(b) ==> {
                &&& b.spec_sizes() == Self::spec_layout_sizes(*layout)
                &&& b.bind_index == bind_index
                &&& b.sizes@.len() == resources@.len()
            },
            r matches Err(e) ==> (e == BindingError::CountMismatch <==> resources@.len()
                != layout.entries@.len()),
    {
        if resources.len() != layout.entries.len() {
            proof {
                assert(!spec_blobs_fit(
                    Self::spec_layout_sizes(*layout),
                    resources@.map_values(|b: Vec<u8>| b@),
                ));
            }
            return Err(BindingError::CountMismatch);
        }
        let mut sizes: Vec<usize> = Vec::new();
        let mut i: usize = 0;
        while i < resources.len()
            invariant
                i <= resources@.len(),
                resources@.len() == layout.entries@.len(),
                layout.is_uniform_shape(),
                sizes@.len() == i,
                forall|k: int| 0 <= k < i ==> #[trigger] sizes@[k] as int == Self::spec_layout_sizes(
                    *layout,
                )[k],
                forall|k: int| 0 <= k < i ==> #[trigger] resources@[k]@.len()
                    == Self::spec_layout_sizes(*layout)[k],
            decreases resources@.len() - i,
        {
            let declared: usize = match layout.entries[i].kind {
                BindingKind::UniformBuffer { min_size } => min_size,
                _ => 0,
            };
            if resources[i].len() != declared {
                proof {
                    assert(resources@.map_values(|b: Vec<u8>| b@)[i as int].len()
                        != Self::spec_layout_sizes(*layout)[i as int]);
                }
                return Err(BindingError::SizeMismatch);
            }
            sizes.push(declared);
            i = i + 1;
        }
        proof {
            assert(spec_blobs_fit(
                Self::spec_layout_sizes(*layout),
                resources@.map_values(|b: Vec<u8>| b@),
            ));
            assert(sizes@.map_values(|s: usize| s as int) =~= Self::spec_layout_sizes(*layout));
        }
        Ok(Binding { sizes, bind_index })
    }

    /// Whether `resources` could overwrite this binding's buffers: exactly
    /// as many blobs as buffers, each of its buffer's exact size.
    pub fn matches_resources(&self, resources: &Vec<Vec<u8>>) -> (b: bool)
        ensures
            b == spec_blobs_fit(self.spec_sizes(), resources@.map_values(|r: Vec<u8>| r@)),
    {
        if resources.len() != self.sizes.len() {
            proof {
                assert(!spec_blobs_fit(
                    self.spec_sizes(),
                    resources@.map_values(|r: Vec<u8>| r@),
                ));
            }
            return false;
        }
        let mut i: usize = 0;
        while i < resources.len()
            invariant
                i <= resources@.len(),
                resources@.len() == self.sizes@.len(),
                forall|k: int| 0 <= k < i ==> #[trigger] resources@[k]@.len() == self.sizes@[k],
            decreases resources@.len() - i,
        {
            if resources[i].len() != self.sizes[i] {
                proof {
                    assert(resources@.map_values(|r: Vec<u8>| r@)[i as int].len()
                        != self.spec_sizes()[i as int]);
                }
                return false;
            }
            i = i + 1;
        }
        proof {
            assert(spec_blobs_fit(self.spec_sizes(), resources@.map_values(|r: Vec<u8>| r@)));
        }
        true
    }

    /// Checks an in-place overwrite of the buffers.  Succeeds exactly when
    /// the blobs match the buffer list — same count, same byte length each
    /// — and then hands the blobs back unchanged, in order, for the caller
    /// to enqueue; a mismatch is the corresponding error, never a
    /// truncation.
    pub fn update_buffer(&self, resources: Vec<Vec<u8>>) -> (r: Result<Vec<Vec<u8>>, BindingError>)
        ensures
            r is Ok <==> spec_blobs_fit(self.spec_sizes(), resources@.map_values(|b: Vec<u8>| b@)),
            r matches Ok(w) ==> w@ == resources@,
            r matches Err(e) ==> (e == BindingError::CountMismatch <==> resources@.len()
                != self.sizes@.len()),
    {
        if resources.len() != self.sizes.len() {
            proof {
                assert(!spec_blobs_fit(
                    self.spec_sizes(),
                    resources@.map_values(|b: Vec<u8>| b@),
                ));
            }
            return Err(BindingError::CountMismatch);
        }
        if self.matches_resources(&resources) {
            Ok(resources)
        } else {
            Err(BindingError::SizeMismatch)
        }
    }
}

/// A binding set pairing one texture (its view and sampler) with the slot
/// index it is attached at.  Immutable once built: showing a different
/// texture view means building a new one.
#[derive(Debug)]
pub struct TextureBinding {
    /// Handle of the texture on the GPU side.
    pub texture: usize,
    pub bind_index: u32,
}

impl TextureBinding {
    pub fn new(texture: usize, bind_index: u32) -> (r: TextureBinding)
        ensures
            r.texture == texture,
            r.bind_index == bind_index,
    {
        TextureBinding { texture, bind_index }
    }

    /// The layout of a diffuse-texture binding: a filterable 2D texture at
    /// slot 0 and a filtering sampler at slot 1, fragment-visible.
    pub fn bind_group_layout() -> (r: LayoutShape)
        ensures
            r.entries@ =~= seq![
                LayoutEntry {
                    binding: 0,
                    visibility: Visibility::Fragment,
                    kind: BindingKind::Texture2d,
                },
                LayoutEntry {
                    binding: 1,
                    visibility: Visibility::Fragment,
                    kind: BindingKind::FilteringSampler,
                },
            ],
            r.wf(),
    {
        let mut entries: Vec<LayoutEntry> = Vec::new();
        entries.push(LayoutEntry {
            binding: 0,
            visibility: Visibility::Fragment,
            kind: BindingKind::Texture2d,
        });
        entries.push(LayoutEntry {
            binding: 1,
            visibility: Visibility::Fragment,
            kind: BindingKind::FilteringSampler,
        });
        LayoutShape { entries }
    }

    /// The layout of the shadow-cube binding: a cube-shaped depth texture
    /// at slot 0 and a comparison sampler at slot 1, fragment-visible.
    pub fn shadow_texture_bind_group_layout() -> (r: LayoutShape)
        ensures
            r.entries@ =~= seq![
                LayoutEntry {
                    binding: 0,
                    visibility: Visibility::Fragment,
                    kind: BindingKind::TextureCubeDepth,
                },
                LayoutEntry {
                    binding: 1,
                    visibility: Visibility::Fragment,
                    kind: BindingKind::ComparisonSampler,
                },
            ],
            r.wf(),
    {
        let mut entries: Vec<LayoutEntry> = Vec::new();
        entries.push(LayoutEntry {
            binding: 0,
            visibility: Visibility::Fragment,
            kind: BindingKind::TextureCubeDepth,
        });
        entries.push(LayoutEntry {
            binding: 1,
            visibility: Visibility::Fragment,
            kind: BindingKind::ComparisonSampler,
        });
        LayoutShape { entries }
    }
}

/// What the globals binding holds: the camera block and the light block,
/// at slots 0 and 1.
pub struct Globals {
    pub camera_raw: CameraRaw,
    pub light: Light,
}

impl Globals {
    /// The two-slot layout of the globals binding: the 80-byte camera
    /// block at slot 0 and the 96-byte light block at slot 1, both
    /// visible to both stages.
    pub fn bind_group_layout() -> (r: LayoutShape)
        ensures
            r.entries@ =~= seq![
                LayoutEntry {
                    binding: 0,
                    visibility: Visibility::VertexFragment,
                    kind: BindingKind::UniformBuffer { min_size: crate::camera::CAMERA_RAW_SIZE },
                },
                LayoutEntry {
                    binding: 1,
                    visibility: Visibility::VertexFragment,
                    kind: BindingKind::UniformBuffer { min_size: crate::light::LIGHT_RAW_SIZE },
                },
            ],
            r.wf(),
            r.is_uniform_shape(),
    {
        let mut entries: Vec<LayoutEntry> = Vec::new();
        entries.push(LayoutEntry {
            binding: 0,
            visibility: Visibility::VertexFragment,
            kind: BindingKind::UniformBuffer { min_size: crate::camera::CAMERA_RAW_SIZE },
        });
        entries.push(LayoutEntry {
            binding: 1,
            visibility: Visibility::VertexFragment,
            kind: BindingKind::UniformBuffer { min_size: crate::light::LIGHT_RAW_SIZE },
        });
        LayoutShape { entries }
    }

    /// The two byte blobs of the globals update, in slot order: the
    /// serialized camera block, then the serialized light block.
    pub fn to_resources(&self) -> (r: Vec<Vec<u8>>)
        requires
            self.camera_raw.wf(),
            self.light.wf(),
        ensures
            r@.len() == 2,
            r@[0]@ == self.camera_raw.spec_bytes(),
            r@[1]@ == self.light.spec_bytes(),
            r@[0]@.len() == crate::camera::CAMERA_RAW_SIZE,
            r@[1]@.len() == crate::light::LIGHT_RAW_SIZE,
    {
        let camera_bytes = self.camera_raw.to_bytes();
        let light_bytes = self.light.to_bytes();
        let mut out: Vec<Vec<u8>> = Vec::new();
        out.push(camera_bytes);
        out.push(light_bytes);
        out
    }
}

impl Bindeable for Globals {
    fn bind_group_layout() -> LayoutShape {
        Globals::bind_group_layout()
    }
}

} // verus!
