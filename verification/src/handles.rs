//! The resource handle model: small value types, each wrapping the opaque
//! 64-bit identifier under which the native driver knows one resource.
//! Equality (where defined) goes solely by that identifier, plus, for the
//! composite image types, the immutable creation parameters kept alongside it.
//! Handles carry no behavior; they are created and destroyed by collaborators
//! outside this core and only stored and compared here.

use vstd::prelude::*;

verus! {

#[derive(Clone, Copy, Debug, Hash, PartialEq, Eq, Structural)]
pub struct Semaphore(pub u64);

#[derive(Clone, Copy, Debug, Hash, PartialEq, Eq, Structural)]
pub struct Fence(pub u64);

#[derive(Clone, Copy, Debug, Hash, PartialEq, Eq, Structural)]
pub struct GraphicsPipeline(pub u64);

#[derive(Clone, Copy, Debug, Hash, PartialEq, Eq, Structural)]
pub struct ComputePipeline(pub u64);

#[derive(Clone, Copy, Debug, Hash, PartialEq, Eq, Structural)]
pub struct Memory {
    pub raw: u64,
}

#[derive(Clone, Copy, Debug, Hash, PartialEq, Eq, Structural)]
pub struct Buffer {
    pub raw: u64,
}

#[derive(Clone, Copy, Debug, Hash, PartialEq, Eq, Structural)]
pub struct BufferView {
    pub raw: u64,
}

/// The dimensionality an image was created with.
#[derive(Clone, Copy, Debug, Hash, PartialEq, Eq, Structural)]
pub enum ImageType {
    D1,
    D2,
    D3,
}

/// The size an image was created with, in texels.
#[derive(Clone, Copy, Debug, Hash, PartialEq, Eq, Structural)]
pub struct Extent3D {
    pub width: u32,
    pub height: u32,
    pub depth: u32,
}

/// An image handle plus the immutable creation parameters (dimensionality,
/// creation flag bits, extent) needed later to interpret view subresource
/// ranges. Equality includes these parameters.
#[derive(Clone, Copy, Debug, Hash, PartialEq, Eq, Structural)]
pub struct Image {
    pub raw: u64,
    pub ty: ImageType,
    pub flags: u32,
    pub extent: Extent3D,
}

/// The sub-selection of an image's mip levels and array layers addressed by a
/// view: an aspect bit mask and two half-open index ranges.
#[derive(Clone, Copy, Debug, Hash, PartialEq, Eq, Structural)]
pub struct SubresourceRange {
    pub aspects: u32,
    pub level_start: u8,
    pub level_end: u8,
    pub layer_start: u16,
    pub layer_end: u16,
}

/// A view handle plus a non-owning back-reference to its parent image's
/// identifier and the subresource range it addresses. The back-reference is
/// identity-only: it never keeps the image alive.
#[derive(Clone, Copy, Debug, Hash, PartialEq, Eq, Structural)]
pub struct ImageView {
    pub image: u64,
    pub view: u64,
    pub range: SubresourceRange,
}

#[derive(Clone, Copy, Debug, Hash, PartialEq, Eq, Structural)]
pub struct Sampler(pub u64);

#[derive(Clone, Copy, Debug, Hash, PartialEq, Eq, Structural)]
pub struct RenderPass {
    pub raw: u64,
}

#[derive(Clone, Copy, Debug, Hash, PartialEq, Eq, Structural)]
pub struct Framebuffer {
    pub raw: u64,
}

#[derive(Clone, Copy, Debug, Hash, PartialEq, Eq, Structural)]
pub struct PipelineLayout {
    pub raw: u64,
}

#[derive(Clone, Copy, Debug, Hash, PartialEq, Eq, Structural)]
pub struct ShaderModule {
    pub raw: u64,
}

#[derive(Clone, Copy, Debug, Hash, PartialEq, Eq, Structural)]
pub struct QueryPool(pub u64);

} // verus!
