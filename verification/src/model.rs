//! Meshes, materials, and models as the renderer sees them.
//!
//! A model is a list of meshes and a list of materials.  Geometry bytes and
//! decoded images live on the GPU side of the boundary; here a mesh is its
//! index count and material choice, and a material is its 48-byte parameter
//! block plus a handle to its diffuse texture.  The module also generates
//! the ground-plane index data: a grid of quads whose indices provably stay
//! inside the vertex array.

use vstd::prelude::*;
use crate::bytes::{words_le_bytes, words_to_bytes, lemma_words_le_bytes_len};
use crate::layouts::{Bindeable, BindingKind, LayoutEntry, LayoutShape, Visibility, uniform_shape};

verus! {

/// Byte size of the material uniform block: ambient and diffuse, each
/// padded to four 32-bit lanes, then specular and shininess.
pub const MATERIAL_PARAMS_SIZE: usize = 48;

/// IEEE-754 bit pattern of the 32-bit float one-half, the default value of
/// every material channel.
pub const HALF_WORD: u32 = 0x3F00_0000;

/// Material parameters as 32-bit float words.
pub struct MaterialParams {
    /// Ambient color, three words.
    pub ambient: Vec<u32>,
    /// Diffuse color, three words.
    pub diffuse: Vec<u32>,
    /// Specular color, three words.
    pub specular: Vec<u32>,
    /// Shininess exponent, one word packed into specular's fourth lane.
    pub shininess: u32,
}

impl MaterialParams {
    pub open spec fn wf(self) -> bool {
        &&& self.ambient@.len() == 3
        &&& self.diffuse@.len() == 3
        &&& self.specular@.len() == 3
    }

    /// The 12 words of the block: padded ambient, padded diffuse, specular
    /// with the shininess in the last lane.
    pub open spec fn spec_words(self) -> Seq<u32> {
        self.ambient@ + seq![0u32] + self.diffuse@ + seq![0u32] + self.specular@
            + seq![self.shininess]
    }

    /// The exact byte image of the block.
    pub open spec fn spec_bytes(self) -> Seq<u8> {
        words_le_bytes(self.spec_words())
    }

    pub fn new(ambient: Vec<u32>, diffuse: Vec<u32>, specular: Vec<u32>, shininess: u32) -> (r: MaterialParams)
        requires
            ambient@.len() == 3,
            diffuse@.len() == 3,
            specular@.len() == 3,
        ensures
            r.wf(),
            r.ambient@ == ambient@,
            r.diffuse@ == diffuse@,
            r.specular@ == specular@,
            r.shininess == shininess,
    {
        MaterialParams { ambient, diffuse, specular, shininess }
    }

    /// Serializes the block; the result is exactly 48 bytes.
    pub fn to_bytes(&self) -> (r: Vec<u8>)
        requires
            self.wf(),
        ensures
            r@ == self.spec_bytes(),
            r@.len() == MATERIAL_PARAMS_SIZE,
    {
        let mut words: Vec<u32> = Vec::new();
        crate::light::extend_words(&mut words, &self.ambient);
        words.push(0);
        crate::light::extend_words(&mut words, &self.diffuse);
        words.push(0);
        crate::light::extend_words(&mut words, &self.specular);
        words.push(self.shininess);
        proof {
            assert(words@ =~= self.spec_words());
        }
        words_to_bytes(&words)
    }

    /// The single-slot layout of the material binding: one uniform buffer
    /// of at least the block's 48 bytes, visible to the fragment stage.
    pub fn bind_group_layout() -> (r: LayoutShape)
        ensures
            r.entries@ =~= seq![
                LayoutEntry {
                    binding: 0,
                    visibility: Visibility::Fragment,
                    kind: BindingKind::UniformBuffer { min_size: MATERIAL_PARAMS_SIZE },
                },
            ],
            r.wf(),
            r.is_uniform_shape(),
    {
        uniform_shape(Visibility::Fragment, MATERIAL_PARAMS_SIZE)
    }
}

impl Bindeable for MaterialParams {
    fn bind_group_layout() -> LayoutShape {
        MaterialParams::bind_group_layout()
    }
}

/// A well-formed material block serializes to exactly the 48 bytes its
/// layout declares as the minimum binding size.
pub proof fn lemma_material_block_size(p: MaterialParams)
    requires
        p.wf(),
    ensures
        p.spec_bytes().len() == MATERIAL_PARAMS_SIZE,
{
    lemma_words_le_bytes_len(p.spec_words());
}

impl std::default::Default for MaterialParams {
    /// Every channel one half; the neutral grey material.
    fn default() -> (r: MaterialParams)
        ensures
            r.wf(),
            r.ambient@ == seq![HALF_WORD, HALF_WORD, HALF_WORD],
            r.diffuse@ == seq![HALF_WORD, HALF_WORD, HALF_WORD],
            r.specular@ == seq![HALF_WORD, HALF_WORD, HALF_WORD],
            r.shininess == HALF_WORD,
    {
        let mut ambient: Vec<u32> = Vec::new();
        ambient.push(HALF_WORD);
        ambient.push(HALF_WORD);
        ambient.push(HALF_WORD);
        let mut diffuse: Vec<u32> = Vec::new();
        diffuse.push(HALF_WORD);
        diffuse.push(HALF_WORD);
        diffuse.push(HALF_WORD);
        let mut specular: Vec<u32> = Vec::new();
        specular.push(HALF_WORD);
        specular.push(HALF_WORD);
        specular.push(HALF_WORD);
        proof {
            assert(ambient@ =~= seq![HALF_WORD, HALF_WORD, HALF_WORD]);
            assert(diffuse@ =~= seq![HALF_WORD, HALF_WORD, HALF_WORD]);
            assert(specular@ =~= seq![HALF_WORD, HALF_WORD, HALF_WORD]);
        }
        MaterialParams { ambient, diffuse, specular, shininess: HALF_WORD }
    }
}

/// A material: its parameter block and the handle of its diffuse texture
/// on the GPU side.
pub struct Material {
    pub params: MaterialParams,
    pub diffuse_texture: usize,
}

impl Material {
    pub fn new(params: MaterialParams, diffuse_texture: usize) -> (r: Material)
        requires
            params.wf(),
        ensures
            r.wf(),
            r.params.spec_words() == params.spec_words(),
            r.diffuse_texture == diffuse_texture,
    {
        Material { params, diffuse_texture }
    }

    pub open spec fn wf(self) -> bool {
        self.params.wf()
    }
}

/// A mesh: how many indices its index buffer holds, and which of the
/// owning model's materials it uses.
#[derive(Clone, Copy, PartialEq, Eq, Structural)]
pub struct Mesh {
    pub len_indicies: usize,
    pub material_id: Option<usize>,
}

impl Mesh {
    /// The material slot a mesh draws with: its declared one, or the
    /// model's first material when it declares none.
    pub open spec fn spec_material_id(self) -> int {
        match self.material_id {
            Some(id) => id as int,
            None => 0,
        }
    }

    pub fn effective_material_id(&self) -> (r: usize)
        ensures
            r == self.spec_material_id(),
    {
        match self.material_id {
            Some(id) => id,
            None => 0,
        }
    }
}

/// A model: meshes plus the materials they reference.
pub struct Model {
    pub meshes: Vec<Mesh>,
    pub materials: Vec<Material>,
}

impl Model {
    /// Every mesh's material slot exists, and there is a first material to
    /// fall back on.
    pub open spec fn wf(self) -> bool {
        &&& self.materials@.len() >= 1
        &&& forall|m: int|
            0 <= m < self.meshes@.len() ==> 0 <= #[trigger] self.meshes@[m].spec_material_id()
                < self.materials@.len()
        &&& forall|i: int| 0 <= i < self.materials@.len() ==> (#[trigger] self.materials@[i]).wf()
    }
}

/// Quads in the generated ground plane: a 20 × 20 grid of cells.
pub const PLANE_QUAD_COUNT: usize = 400;

/// The index pattern of one quad: two triangles over four vertices.
pub open spec fn spec_quad_pattern(k: int) -> int {
    if k == 0 {
        0
    } else if k == 1 {
        1
    } else if k == 2 {
        2
    } else if k == 3 {
        2
    } else if k == 4 {
        3
    } else {
        0
    }
}

/// Index `k` of a quad list: the quad's four-vertex base plus the pattern.
pub open spec fn spec_quad_index(k: int) -> int {
    4 * (k / 6) + spec_quad_pattern(k % 6)
}

/// Generates the index list for `quad_count` quads laid out four vertices
/// per quad: six indices per quad, and every index stays inside the vertex
/// array of `4 * quad_count` entries.
pub fn quad_indices(quad_count: usize) -> (r: Vec<u32>)
    requires
        quad_count <= 0x100_0000,
    ensures
        r@.len() == 6 * quad_count,
        forall|k: int| 0 <= k < r@.len() ==> r@[k] == spec_quad_index(k),
        forall|k: int| 0 <= k < r@.len() ==> r@[k] < 4 * quad_count,
{
    let mut out: Vec<u32> = Vec::new();
    let mut q: usize = 0;
    while q < quad_count
        invariant
            q <= quad_count,
            quad_count <= 0x100_0000,
            out@.len() == 6 * q,
            forall|k: int| 0 <= k < out@.len() ==> out@[k] == spec_quad_index(k),
            forall|k: int| 0 <= k < out@.len() ==> out@[k] < 4 * quad_count,
        decreases quad_count - q,
    {
        let base: u32 = (4 * q) as u32;
        out.push(base);
        out.push(base + 1);
        out.push(base + 2);
        out.push(base + 2);
        out.push(base + 3);
        out.push(base);
        proof {
            assert forall|k: int| 6 * q <= k < 6 * q + 6 implies out@[k] == spec_quad_index(k)
                && out@[k] < 4 * quad_count by {
                assert(k / 6 == q) by (nonlinear_arith)
                    requires 6 * q <= k < 6 * q + 6, q >= 0;
                assert(k % 6 == k - 6 * q) by (nonlinear_arith)
                    requires 6 * q <= k < 6 * q + 6, q >= 0;
            }
        }
        q = q + 1;
    }
    out
}

/// Builds the ground-plane model: one mesh of `PLANE_QUAD_COUNT` quads
/// drawing with the single given material.
pub fn create_plane(params: MaterialParams, diffuse_texture: usize) -> (r: Model)
    requires
        params.wf(),
    ensures
        r.wf(),
        r.meshes@.len() == 1,
        r.meshes@[0].len_indicies == 6 * PLANE_QUAD_COUNT,
        r.meshes@[0].material_id == Some(0usize),
        r.materials@.len() == 1,
        r.materials@[0].params.spec_words() == params.spec_words(),
        r.materials@[0].diffuse_texture == diffuse_texture,
{
    let mesh = Mesh { len_indicies: 6 * PLANE_QUAD_COUNT, material_id: Some(0) };
    let material = Material::new(params, diffuse_texture);
    let mut meshes: Vec<Mesh> = Vec::new();
    meshes.push(mesh);
    let mut materials: Vec<Material> = Vec::new();
    materials.push(material);
    Model { meshes, materials }
}

} // verus!
