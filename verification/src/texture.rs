//! Texture descriptions and pixel uploads.
//!
//! A texture here is what the logic reads of a GPU image: its extent,
//! layer count, format, how its default view is shaped, and whether its
//! sampler compares depth.  The module computes the descriptions the
//! renderer allocates — the screen depth buffer, the six-layer shadow
//! cube, color images — and the exact pixel bytes of an upload, including
//! the 8×8 solid-color fallback image.

use vstd::prelude::*;

verus! {

/// Pixel format of an allocated image.
#[derive(Clone, Copy, PartialEq, Eq, Structural, Debug)]
pub enum TextureFormat {
    /// 32-bit float depth.
    Depth32,
    /// 8-bit RGBA color, sRGB-sampled.
    Rgba8,
}

/// Shape of a texture view.
#[derive(Clone, Copy, PartialEq, Eq, Structural, Debug)]
pub enum ViewDimension {
    D2,
    Cube,
}

/// Side length of the solid-color fallback image.
pub const SOLID_COLOR_SIZE: u32 = 8;

/// Layer count of the shadow cube texture.
pub const CUBE_LAYER_COUNT: u32 = 6;

/// What the logic reads of a GPU image: extent, layers, format, the shape
/// of its default view, and whether its sampler is a depth-comparison
/// sampler.
#[derive(Clone, Copy, PartialEq, Eq, Structural, Debug)]
pub struct Texture {
    pub width: u32,
    pub height: u32,
    pub array_layers: u32,
    pub format: TextureFormat,
    pub view_dimension: ViewDimension,
    pub comparison_sampler: bool,
}

/// One pixel upload: the bytes and the row layout the copy declares.
#[derive(Debug)]
pub struct TextureUpload {
    pub bytes: Vec<u8>,
    pub bytes_per_row: u32,
    pub rows_per_image: u32,
}

/// Why an upload could not be described.
#[derive(Clone, Copy, PartialEq, Eq, Structural, Debug)]
pub enum TextureError {
    /// The byte count is not four bytes per pixel of the given extent.
    SizeMismatch,
}

/// Pixel `q` of `bytes` is exactly the RGBA value `(r, g, b, a)`.
pub open spec fn spec_pixel_is(bytes: Seq<u8>, q: int, r: u8, g: u8, b: u8, a: u8) -> bool {
    &&& bytes[4 * q] == r
    &&& bytes[4 * q + 1] == g
    &&& bytes[4 * q + 2] == b
    &&& bytes[4 * q + 3] == a
}

impl Texture {
    /// Describes a depth texture: the given extent clamped to at least one
    /// texel per side, the given layer count, a single 2D default view,
    /// and a comparison sampler for shadow lookups.
    pub fn create_depth_texture(width: u32, height: u32, array_layers: u32) -> (t: Texture)
        ensures
            t.width == if width == 0 { 1u32 } else { width },
            t.height == if height == 0 { 1u32 } else { height },
            t.array_layers == array_layers,
            t.format == TextureFormat::Depth32,
            t.view_dimension == ViewDimension::D2,
            t.comparison_sampler,
    {
        Texture {
            width: if width == 0 { 1 } else { width },
            height: if height == 0 { 1 } else { height },
            array_layers,
            format: TextureFormat::Depth32,
            view_dimension: ViewDimension::D2,
            comparison_sampler: true,
        }
    }

    /// Describes the shadow cube: a six-layer depth texture whose default
    /// view spans all six layers as a cube for sampling.  Per-face 2D
    /// views for writing are described on demand by [`face_view_desc`].
    pub fn create_cube_depth_texture(width: u32, height: u32) -> (t: Texture)
        ensures
            t.width == if width == 0 { 1u32 } else { width },
            t.height == if height == 0 { 1u32 } else { height },
            t.array_layers == CUBE_LAYER_COUNT,
            t.format == TextureFormat::Depth32,
            t.view_dimension == ViewDimension::Cube,
            t.comparison_sampler,
    {
        let mut t = Texture::create_depth_texture(width, height, CUBE_LAYER_COUNT);
        t.view_dimension = ViewDimension::Cube;
        t
    }

    /// Describes a sampled color image and its pixel upload.  Succeeds
    /// exactly when the byte count is four bytes per pixel; the copy's row
    /// layout is then four bytes per texel and one image of `height` rows.
    pub fn load_texture(width: u32, height: u32, rgba_bytes: Vec<u8>) -> (r: Result<
        (Texture, TextureUpload),
        TextureError,
    >)
        requires
            width <= 0x10000,
            height <= 0x10000,
        ensures
            r is Ok <==> rgba_bytes@.len() == 4 * ((width * height) as int),
            r matches Ok(p) ==> {
                &&& p.0.width == width
                &&& p.0.height == height
                &&& p.0.array_layers == 1
                &&& p.0.format == TextureFormat::Rgba8
                &&& p.0.view_dimension == ViewDimension::D2
                &&& !p.0.comparison_sampler
                &&& p.1.bytes@ == rgba_bytes@
                &&& p.1.bytes_per_row == 4 * width
                &&& p.1.rows_per_image == height
            },
            r matches Err(e) ==> e == TextureError::SizeMismatch,
    {
        proof {
            assert((width as u64) * (height as u64) <= 0x1_0000_0000) by (nonlinear_arith)
                requires width <= 0x10000, height <= 0x10000;
        }
        let expected: u64 = 4 * ((width as u64) * (height as u64));
        if rgba_bytes.len() as u64 != expected {
            return Err(TextureError::SizeMismatch);
        }
        let texture = Texture {
            width,
            height,
            array_layers: 1,
            format: TextureFormat::Rgba8,
            view_dimension: ViewDimension::D2,
            comparison_sampler: false,
        };
        let upload = TextureUpload { bytes: rgba_bytes, bytes_per_row: 4 * width, rows_per_image: height };
        Ok((texture, upload))
    }

    /// Describes the solid-color fallback texture: an 8×8 color image in
    /// which every pixel is exactly the given RGBA value.
    pub fn create_solid_color_texture(r: u8, g: u8, b: u8, a: u8) -> (t: (Texture, TextureUpload))
        ensures
            t.0.width == SOLID_COLOR_SIZE,
            t.0.height == SOLID_COLOR_SIZE,
            t.0.array_layers == 1,
            t.0.format == TextureFormat::Rgba8,
            t.0.view_dimension == ViewDimension::D2,
            !t.0.comparison_sampler,
            t.1.bytes@.len() == 4 * SOLID_COLOR_SIZE * SOLID_COLOR_SIZE,
            forall|q: int|
                0 <= q < SOLID_COLOR_SIZE * SOLID_COLOR_SIZE ==> spec_pixel_is(
                    t.1.bytes@,
                    q,
                    r,
                    g,
                    b,
                    a,
                ),
            t.1.bytes_per_row == 4 * SOLID_COLOR_SIZE,
            t.1.rows_per_image == SOLID_COLOR_SIZE,
    {
        let pixel_count: usize = (SOLID_COLOR_SIZE * SOLID_COLOR_SIZE) as usize;
        let mut bytes: Vec<u8> = Vec::new();
        let mut q: usize = 0;
        while q < pixel_count
            invariant
                q <= pixel_count,
                pixel_count == SOLID_COLOR_SIZE * SOLID_COLOR_SIZE,
                bytes@.len() == 4 * q,
                forall|p: int| 0 <= p < q ==> spec_pixel_is(bytes@, p, r, g, b, a),
            decreases pixel_count - q,
        {
            let ghost before = bytes@;
            bytes.push(r);
            bytes.push(g);
            bytes.push(b);
            bytes.push(a);
            proof {
                assert forall|p: int| 0 <= p < q + 1 implies spec_pixel_is(
                    bytes@,
                    p,
                    r,
                    g,
                    b,
                    a,
                ) by {
                    if p < q {
                        assert(spec_pixel_is(before, p, r, g, b, a));
                    }
                }
            }
            q = q + 1;
        }
        let texture = Texture {
            width: SOLID_COLOR_SIZE,
            height: SOLID_COLOR_SIZE,
            array_layers: 1,
            format: TextureFormat::Rgba8,
            view_dimension: ViewDimension::D2,
            comparison_sampler: false,
        };
        let upload = TextureUpload {
            bytes,
            bytes_per_row: 4 * SOLID_COLOR_SIZE,
            rows_per_image: SOLID_COLOR_SIZE,
        };
        (texture, upload)
    }
}

/// A view slicing one cube face for depth writes during the shadow pass.
#[derive(Clone, Copy, PartialEq, Eq, Structural, Debug)]
pub struct FaceViewDesc {
    pub base_array_layer: u32,
    pub array_layer_count: u32,
    pub dimension: ViewDimension,
}

/// Describes the 2D single-layer view of cube face `face`, the depth
/// target of that face's shadow render pass.
pub fn face_view_desc(face: usize) -> (d: FaceViewDesc)
    requires
        face < 6,
    ensures
        d.base_array_layer == face,
        d.array_layer_count == 1,
        d.dimension == ViewDimension::D2,
{
    FaceViewDesc { base_array_layer: face as u32, array_layer_count: 1, dimension: ViewDimension::D2 }
}

} // verus!
