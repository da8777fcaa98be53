//! Textures and materials: the device objects a renderer draws with.

use vstd::prelude::*;

use crate::allocator::owned_block::OwnedBlock;
use crate::swapchain::Extent2D;

verus! {

/// A 2D image with its view and the memory block that backs it.
///
/// The texture owns its objects; the caller keeps it alive until the GPU no
/// longer reads it.
pub struct Texture {
    mip_levels: u32,
    width: u32,
    height: u32,
    image_view: u64,
    image: u64,
    block: OwnedBlock,
}

impl Texture {
    /// Gathers an image of `width` by `height` pixels with `mip_levels`
    /// levels, its view, and the block it is bound to.
    pub fn new(
        width: u32,
        height: u32,
        mip_levels: u32,
        image: u64,
        image_view: u64,
        block: OwnedBlock,
    ) -> (r: Texture)
        ensures
            r.width_spec() == width,
            r.height_spec() == height,
            r.mip_levels_spec() == mip_levels,
            r.image_spec() == image,
            r.view_spec() == image_view,
            r.memory_spec()@ == block@,
    {
        Texture { mip_levels, width, height, image_view, image, block }
    }

    pub closed spec fn width_spec(&self) -> u32 {
        self.width
    }

    pub closed spec fn height_spec(&self) -> u32 {
        self.height
    }

    pub closed spec fn mip_levels_spec(&self) -> u32 {
        self.mip_levels
    }

    pub closed spec fn image_spec(&self) -> u64 {
        self.image
    }

    pub closed spec fn view_spec(&self) -> u64 {
        self.image_view
    }

    pub closed spec fn memory_spec(&self) -> &OwnedBlock {
        &self.block
    }

    /// Returns the image handle.
    pub fn image(&self) -> (r: u64)
        ensures
            r == self.image_spec(),
    {
        self.image
    }

    /// Returns the image view handle.
    pub fn view(&self) -> (r: u64)
        ensures
            r == self.view_spec(),
    {
        self.image_view
    }

    /// Returns the memory block the image is bound to.
    pub fn memory(&self) -> (r: &OwnedBlock)
        ensures
            r@ == self.memory_spec()@,
    {
        &self.block
    }

    pub fn width(&self) -> (r: u32)
        ensures
            r == self.width_spec(),
    {
        self.width
    }

    pub fn height(&self) -> (r: u32)
        ensures
            r == self.height_spec(),
    {
        self.height
    }

    pub fn mip_levels(&self) -> (r: u32)
        ensures
            r == self.mip_levels_spec(),
    {
        self.mip_levels
    }

    /// The image's width and height.
    pub fn extent(&self) -> (r: Extent2D)
        ensures
            r == (Extent2D { width: self.width_spec(), height: self.height_spec() }),
    {
        Extent2D { width: self.width, height: self.height }
    }
}

/// A graphics pipeline that draws meshes.
pub struct Material {
    pipeline: u64,
}

impl Material {
    /// A material that draws with `pipeline`.
    pub fn new(pipeline: u64) -> (r: Material)
        ensures
            r.pipeline_spec() == pipeline,
    {
        Material { pipeline }
    }

    pub closed spec fn pipeline_spec(&self) -> u64 {
        self.pipeline
    }

    /// Returns the pipeline handle used by this material.
    pub fn pipeline(&self) -> (r: u64)
        ensures
            r == self.pipeline_spec(),
    {
        self.pipeline
    }
}

} // verus!
