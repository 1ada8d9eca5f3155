//! The descriptor layout/set model. A layout owns a raw layout handle plus a
//! shared, immutable, ordered binding schema; a set owns a raw set handle plus
//! a reference to the very same schema, established once at allocation and
//! never mutated afterward. The schema is reference-counted so the many sets
//! allocated from one layout never duplicate it.

use vstd::prelude::*;
use std::sync::Arc;

verus! {

/// The kind of resource a binding slot holds.
#[derive(Clone, Copy, Debug, Hash, PartialEq, Eq, Structural)]
pub enum DescriptorType {
    Sampler,
    CombinedImageSampler,
    SampledImage,
    StorageImage,
    UniformTexelBuffer,
    StorageTexelBuffer,
    UniformBuffer,
    StorageBuffer,
    UniformBufferDynamic,
    StorageBufferDynamic,
    InputAttachment,
}

/// One slot of a descriptor-set schema: the slot index, the kind of resource
/// bound there, how many descriptors the slot holds, and the shader-stage
/// visibility bit mask.
#[derive(Clone, Copy, Debug, Hash, PartialEq, Eq, Structural)]
pub struct DescriptorBinding {
    pub binding: u32,
    pub ty: DescriptorType,
    pub count: u32,
    pub stage_flags: u32,
}

/// The immutable schema a descriptor set conforms to: a raw native layout
/// handle and the shared, ordered sequence of binding descriptors.
#[derive(Debug)]
pub struct DescriptorSetLayout {
    pub raw: u64,
    pub bindings: Arc<Vec<DescriptorBinding>>,
}

/// A descriptor set: a raw native set handle paired with the binding schema of
/// the layout it was allocated from — the same shared instance, not a copy.
#[derive(Debug)]
pub struct DescriptorSet {
    pub raw: u64,
    pub bindings: Arc<Vec<DescriptorBinding>>,
}

/// Element-wise comparison of two binding schemas.
pub fn bindings_equal(a: &Vec<DescriptorBinding>, b: &Vec<DescriptorBinding>) -> (r: bool)
    ensures
        r == (a@ == b@),
{
    if a.len() != b.len() {
        return false;
    }
    let mut i: usize = 0;
    while i < a.len()
        invariant
            i <= a.len(),
            a.len() == b.len(),
            forall|j: int| 0 <= j < i ==> a@[j] == b@[j],
        decreases a.len() - i,
    {
        if a[i] != b[i] {
            return false;
        }
        i = i + 1;
    }
    proof {
        assert(a@ =~= b@);
    }
    true
}

impl PartialEq for DescriptorSet {
    /// Two sets are equal iff they denote the same native set and carry equal
    /// binding schemas.
    fn eq(&self, other: &DescriptorSet) -> (r: bool) {
        self.raw == other.raw && bindings_equal(&self.bindings, &other.bindings)
    }
}

impl vstd::std_specs::cmp::PartialEqSpecImpl for DescriptorSet {
    open spec fn obeys_eq_spec() -> bool {
        true
    }

    open spec fn eq_spec(&self, other: &DescriptorSet) -> bool {
        self.raw == other.raw && self.bindings@ == other.bindings@
    }
}

} // verus!
