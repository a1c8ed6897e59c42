//! Per-instance transforms and the instance buffer.
//!
//! Each instance of a mesh carries a 4×4 transform matrix; drawing binds a
//! buffer of them alongside the vertex data, stepping once per instance.
//! The matrix scalars are 32-bit floats, carried here as bit-pattern
//! words; the buffer's byte image is 64 bytes per instance, exactly.

use vstd::prelude::*;
use crate::bytes::{words_le_bytes, words_to_bytes};
use crate::vertex::{StepMode, VertexAttribute, VertexBufferLayoutDesc};

verus! {

/// Byte stride of one instance: a 4×4 matrix of 32-bit scalars.
pub const INSTANCE_BYTE_STRIDE: u32 = 64;

/// One instance: its transform matrix as sixteen words, column by column.
#[derive(Clone)]
pub struct Instance {
    pub transform: Vec<u32>,
}

impl Instance {
    pub open spec fn wf(self) -> bool {
        self.transform@.len() == 16
    }

    pub fn new(transform: Vec<u32>) -> (r: Instance)
        requires
            transform@.len() == 16,
        ensures
            r.wf(),
            r.transform@ == transform@,
    {
        Instance { transform }
    }

    /// The layout of an instance buffer: 64-byte stride stepping per
    /// instance, the four matrix columns at offsets 0, 16, 32, 48 feeding
    /// shader locations 3 through 6.
    pub fn desc() -> (r: VertexBufferLayoutDesc)
        ensures
            r.array_stride == INSTANCE_BYTE_STRIDE,
            r.step_mode == StepMode::PerInstance,
            r.attributes@ =~= seq![
                VertexAttribute { shader_location: 3, offset: 0, size: 16 },
                VertexAttribute { shader_location: 4, offset: 16, size: 16 },
                VertexAttribute { shader_location: 5, offset: 32, size: 16 },
                VertexAttribute { shader_location: 6, offset: 48, size: 16 },
            ],
            r.tiles_stride(),
    {
        let mut attributes: Vec<VertexAttribute> = Vec::new();
        attributes.push(VertexAttribute { shader_location: 3, offset: 0, size: 16 });
        attributes.push(VertexAttribute { shader_location: 4, offset: 16, size: 16 });
        attributes.push(VertexAttribute { shader_location: 5, offset: 32, size: 16 });
        attributes.push(VertexAttribute { shader_location: 6, offset: 48, size: 16 });
        VertexBufferLayoutDesc {
            array_stride: INSTANCE_BYTE_STRIDE,
            step_mode: StepMode::PerInstance,
            attributes,
        }
    }

    /// The words of an instance list, matrix after matrix.
    pub open spec fn spec_instances_words(s: Seq<Instance>) -> Seq<u32>
        decreases s.len(),
    {
        if s.len() == 0 {
            Seq::empty()
        } else {
            Self::spec_instances_words(s.drop_last()) + s.last().transform@
        }
    }

    /// Serializes an instance list to the exact byte image of the
    /// per-frame instance buffer: 64 bytes per instance, in order.
    pub fn make_buffer(instances: &Vec<Instance>) -> (r: Vec<u8>)
        requires
            forall|i: int| 0 <= i < instances@.len() ==> (#[trigger] instances@[i]).wf(),
        ensures
            r@ == words_le_bytes(Self::spec_instances_words(instances@)),
            r@.len() == 64 * instances@.len(),
    {
        let mut words: Vec<u32> = Vec::new();
        let mut i: usize = 0;
        while i < instances.len()
            invariant
                i <= instances@.len(),
                forall|k: int| 0 <= k < instances@.len() ==> (#[trigger] instances@[k]).wf(),
                words@ == Self::spec_instances_words(instances@.take(i as int)),
            decreases instances@.len() - i,
        {
            crate::light::extend_words(&mut words, &instances[i].transform);
            proof {
                assert(instances@.take(i + 1 as int).drop_last() =~= instances@.take(i as int));
                assert(instances@.take(i + 1 as int).last() == instances@[i as int]);
            }
            i = i + 1;
        }
        proof {
            assert(instances@.take(instances@.len() as int) =~= instances@);
            Self::lemma_instances_words_len(instances@);
        }
        words_to_bytes(&words)
    }

    /// Sixteen words per well-formed instance.
    pub proof fn lemma_instances_words_len(s: Seq<Instance>)
        requires
            forall|i: int| 0 <= i < s.len() ==> (#[trigger] s[i]).wf(),
        ensures
            Self::spec_instances_words(s).len() == 16 * s.len(),
        decreases s.len(),
    {
        if s.len() > 0 {
            Self::lemma_instances_words_len(s.drop_last());
        }
    }
}

} // verus!
