//! Point-light state and its GPU-ready uniform block.
//!
//! The light's world position is carried twice, deliberately: in fixed
//! point for the shadow-pass geometry (the per-face look-at targets), and
//! as 32-bit float words for the uniform block the GPU samples.  The
//! `view_proj` field is transient per-face state: the shadow pass
//! overwrites it once per cube face and uploads the block each time.

use vstd::prelude::*;
use crate::bytes::{words_le_bytes, words_to_bytes, lemma_words_le_bytes_len};
use crate::layouts::{Bindeable, BindingKind, LayoutEntry, LayoutShape, Visibility, uniform_shape};
use crate::vec3::Vec3Fx;

verus! {

/// Byte size of the light uniform block: position and color, each padded
/// to four 32-bit lanes, plus a 4×4 matrix of 32-bit scalars.
pub const LIGHT_RAW_SIZE: usize = 96;

/// The point light.
pub struct Light {
    /// World position in fixed-point steps, read by the shadow-face
    /// geometry.
    pub position: Vec3Fx,
    /// The same position as three 32-bit float words, written into the
    /// uniform block.
    pub pos_words: Vec<u32>,
    /// Light color as three 32-bit float words.
    pub color_words: Vec<u32>,
    /// The active view-projection matrix as sixteen words; overwritten
    /// once per cube face during the shadow pass.
    pub view_proj: Vec<u32>,
}

impl Light {
    pub open spec fn wf(self) -> bool {
        &&& self.pos_words@.len() == 3
        &&& self.color_words@.len() == 3
        &&& self.view_proj@.len() == 16
    }

    /// The 24 words of the uniform block, were `view_proj` equal to `m`:
    /// padded position, padded color, then the matrix.
    pub open spec fn spec_words_with_view(self, m: Seq<u32>) -> Seq<u32> {
        self.pos_words@ + seq![0u32] + self.color_words@ + seq![0u32] + m
    }

    /// The exact byte image of the block, were `view_proj` equal to `m`.
    pub open spec fn spec_bytes_with_view(self, m: Seq<u32>) -> Seq<u8> {
        words_le_bytes(self.spec_words_with_view(m))
    }

    /// The exact byte image of the block as it stands.
    pub open spec fn spec_bytes(self) -> Seq<u8> {
        self.spec_bytes_with_view(self.view_proj@)
    }

    pub fn new(position: Vec3Fx, pos_words: Vec<u32>, color_words: Vec<u32>, view_proj: Vec<u32>) -> (r: Light)
        requires
            pos_words@.len() == 3,
            color_words@.len() == 3,
            view_proj@.len() == 16,
        ensures
            r.wf(),
            r.position == position,
            r.pos_words@ == pos_words@,
            r.color_words@ == color_words@,
            r.view_proj@ == view_proj@,
    {
        Light { position, pos_words, color_words, view_proj }
    }

    /// Overwrites the active view-projection matrix, the once-per-face
    /// mutation of the shadow pass.
    pub fn set_view_proj(&mut self, m: Vec<u32>)
        requires
            m@.len() == 16,
        ensures
            final(self).view_proj@ == m@,
            final(self).position == old(self).position,
            final(self).pos_words@ == old(self).pos_words@,
            final(self).color_words@ == old(self).color_words@,
            old(self).wf() ==> final(self).wf(),
    {
        self.view_proj = m;
    }

    /// Serializes the block; the result is exactly 96 bytes.
    pub fn to_bytes(&self) -> (r: Vec<u8>)
        requires
            self.wf(),
        ensures
            r@ == self.spec_bytes(),
            r@.len() == LIGHT_RAW_SIZE,
    {
        let mut words: Vec<u32> = Vec::new();
        extend_words(&mut words, &self.pos_words);
        words.push(0);
        extend_words(&mut words, &self.color_words);
        words.push(0);
        extend_words(&mut words, &self.view_proj);
        proof {
            assert(words@ =~= self.spec_words_with_view(self.view_proj@));
        }
        words_to_bytes(&words)
    }

    /// The single-slot layout of a light-only binding: one uniform buffer
    /// of at least the block's 96 bytes, visible to both stages.
    pub fn bind_group_layout() -> (r: LayoutShape)
        ensures
            r.entries@ =~= seq![
                LayoutEntry {
                    binding: 0,
                    visibility: Visibility::VertexFragment,
                    kind: BindingKind::UniformBuffer { min_size: LIGHT_RAW_SIZE },
                },
            ],
            r.wf(),
            r.is_uniform_shape(),
    {
        uniform_shape(Visibility::VertexFragment, LIGHT_RAW_SIZE)
    }
}

impl Bindeable for Light {
    fn bind_group_layout() -> LayoutShape {
        Light::bind_group_layout()
    }
}

/// A well-formed light block serializes to exactly the 96 bytes its
/// layout declares as the minimum binding size, whichever face matrix it
/// holds.
pub proof fn lemma_light_block_size(l: Light, m: Seq<u32>)
    requires
        l.wf(),
        m.len() == 16,
    ensures
        l.spec_bytes_with_view(m).len() == LIGHT_RAW_SIZE,
{
    lemma_words_le_bytes_len(l.spec_words_with_view(m));
}

/// Distinct view-projection matrices give distinct light blocks: the
/// byte image the shadow pass uploads determines the matrix, so six
/// iterations with six different matrices upload six different blocks.
pub proof fn lemma_distinct_views_give_distinct_blocks(l: Light, m1: Seq<u32>, m2: Seq<u32>)
    requires
        l.wf(),
        m1.len() == 16,
        m2.len() == 16,
        m1 != m2,
    ensures
        l.spec_bytes_with_view(m1) != l.spec_bytes_with_view(m2),
{
    if l.spec_bytes_with_view(m1) == l.spec_bytes_with_view(m2) {
        let w1 = l.spec_words_with_view(m1);
        let w2 = l.spec_words_with_view(m2);
        assert(w1.len() == 24);
        assert(w2.len() == 24);
        crate::bytes::lemma_words_le_bytes_injective(w1, w2);
        assert forall|i: int| 0 <= i < 16 implies m1[i] == m2[i] by {
            assert(w1[8 + i] == m1[i]);
            assert(w2[8 + i] == m2[i]);
        }
        assert(m1 =~= m2);
    }
}

/// Appends a copy of `src` to `out`.
pub fn extend_words(out: &mut Vec<u32>, src: &Vec<u32>)
    ensures
        final(out)@ == old(out)@ + src@,
{
    let mut i: usize = 0;
    while i < src.len()
        invariant
            i <= src@.len(),
            out@ == old(out)@ + src@.take(i as int),
        decreases src@.len() - i,
    {
        out.push(src[i]);
        proof {
            assert(old(out)@ + src@.take(i as int) + seq![src@[i as int]]
                =~= old(out)@ + src@.take(i + 1 as int));
        }
        i = i + 1;
    }
    proof {
        assert(src@.take(src@.len() as int) =~= src@);
    }
}

} // verus!
