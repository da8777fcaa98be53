//! The presentation chain: the presentable images of the output surface and
//! the rules that turn the device's acquire/present results into statuses.

use vstd::prelude::*;

pub mod settings;

pub use self::settings::{Extent2D, SurfaceCapabilities, SurfaceFormat};

verus! {

/// The device result code reporting that the surface changed and the chain
/// can no longer present to it.
pub const ERROR_OUT_OF_DATE: i32 = -1000001004;

/// Outcome of asking the chain for the next presentable image.
#[derive(Copy, Clone, Debug, PartialEq, Eq, Structural)]
pub enum AcquireImageStatus {
    ImageAcquired(u32),
    SwapchainNeedsRebuild,
}

/// Outcome of handing a rendered image back to the chain for display.
#[derive(Copy, Clone, Debug, PartialEq, Eq, Structural)]
pub enum PresentImageStatus {
    Queued,
    SwapchainNeedsRebuild,
}

/// A device error that is neither success nor a stale surface; it is fatal.
#[derive(Copy, Clone, Debug, PartialEq, Eq, Structural)]
pub enum SwapchainError {
    AcquireFailed(i32),
    PresentFailed(i32),
}

/// What acquiring an image means, given the device's answer: the image index
/// and whether the surface is suboptimal, or an error code.
pub open spec fn acquire_outcome(result: Result<(u32, bool), i32>) -> Result<
    AcquireImageStatus,
    SwapchainError,
> {
    match result {
        Ok((index, false)) => Ok(AcquireImageStatus::ImageAcquired(index)),
        Ok((_, true)) => Ok(AcquireImageStatus::SwapchainNeedsRebuild),
        Err(code) => if code == ERROR_OUT_OF_DATE {
            Ok(AcquireImageStatus::SwapchainNeedsRebuild)
        } else {
            Err(SwapchainError::AcquireFailed(code))
        },
    }
}

/// What presenting means, given the device's answer: whether the surface is
/// suboptimal, or an error code.
pub open spec fn present_outcome(result: Result<bool, i32>) -> Result<
    PresentImageStatus,
    SwapchainError,
> {
    match result {
        Ok(false) => Ok(PresentImageStatus::Queued),
        Ok(true) => Ok(PresentImageStatus::SwapchainNeedsRebuild),
        Err(code) => if code == ERROR_OUT_OF_DATE {
            Ok(PresentImageStatus::SwapchainNeedsRebuild)
        } else {
            Err(SwapchainError::PresentFailed(code))
        },
    }
}

/// Classifies the device's answer to an image acquisition.
///
/// A suboptimal success and an out-of-date error both ask for a rebuild;
/// any other error is fatal and returned as is.
pub fn acquire_image_status(result: Result<(u32, bool), i32>) -> (r: Result<
    AcquireImageStatus,
    SwapchainError,
>)
    ensures
        r == acquire_outcome(result),
{
    match result {
        Ok((index, suboptimal)) => {
            if suboptimal {
                Ok(AcquireImageStatus::SwapchainNeedsRebuild)
            } else {
                Ok(AcquireImageStatus::ImageAcquired(index))
            }
        },
        Err(code) => {
            if code == ERROR_OUT_OF_DATE {
                Ok(AcquireImageStatus::SwapchainNeedsRebuild)
            } else {
                Err(SwapchainError::AcquireFailed(code))
            }
        },
    }
}

/// Classifies the device's answer to a presentation request, with the same
/// folding of suboptimal and out-of-date as [acquire_image_status].
pub fn present_image_status(result: Result<bool, i32>) -> (r: Result<
    PresentImageStatus,
    SwapchainError,
>)
    ensures
        r == present_outcome(result),
{
    match result {
        Ok(suboptimal) => {
            if suboptimal {
                Ok(PresentImageStatus::SwapchainNeedsRebuild)
            } else {
                Ok(PresentImageStatus::Queued)
            }
        },
        Err(code) => {
            if code == ERROR_OUT_OF_DATE {
                Ok(PresentImageStatus::SwapchainNeedsRebuild)
            } else {
                Err(SwapchainError::PresentFailed(code))
            }
        },
    }
}

/// The presentable images of the output surface, as raw device handles, with
/// the negotiated extent and format.
///
/// Image views pair one to one with images of the same index.
pub struct Swapchain {
    raw: u64,
    extent: Extent2D,
    format: SurfaceFormat,
    images: Vec<u64>,
    image_views: Vec<u64>,
}

impl Swapchain {
    /// Gathers a freshly created chain: its handle, extent, format, images
    /// and one view per image.
    pub fn new(
        raw: u64,
        extent: Extent2D,
        format: SurfaceFormat,
        images: Vec<u64>,
        image_views: Vec<u64>,
    ) -> (r: Swapchain)
        requires
            images.len() == image_views.len(),
        ensures
            r.wf(),
            r.raw_spec() == raw,
            r.extent_spec() == extent,
            r.format_spec() == format,
            r.images_spec() == images@,
            r.image_views_spec() == image_views@,
    {
        Swapchain { raw, extent, format, images, image_views }
    }

    pub open spec fn wf(&self) -> bool {
        self.images_spec().len() == self.image_views_spec().len()
    }

    pub closed spec fn raw_spec(&self) -> u64 {
        self.raw
    }

    pub closed spec fn extent_spec(&self) -> Extent2D {
        self.extent
    }

    pub closed spec fn format_spec(&self) -> SurfaceFormat {
        self.format
    }

    pub closed spec fn images_spec(&self) -> Seq<u64> {
        self.images@
    }

    pub closed spec fn image_views_spec(&self) -> Seq<u64> {
        self.image_views@
    }

    /// Returns the raw chain handle.
    pub fn raw(&self) -> (r: u64)
        ensures
            r == self.raw_spec(),
    {
        self.raw
    }

    /// Returns the chain's current extent.
    pub fn extent(&self) -> (r: Extent2D)
        ensures
            r == self.extent_spec(),
    {
        self.extent
    }

    /// Returns the chain's image format.
    pub fn format(&self) -> (r: SurfaceFormat)
        ensures
            r == self.format_spec(),
    {
        self.format
    }

    /// Returns the chain's image handles.
    pub fn images(&self) -> (r: &Vec<u64>)
        ensures
            r@ == self.images_spec(),
    {
        &self.images
    }

    /// Returns the chain's image views.
    pub fn image_views(&self) -> (r: &Vec<u64>)
        ensures
            r@ == self.image_views_spec(),
    {
        &self.image_views
    }
}

} // verus!
