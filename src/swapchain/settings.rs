//! Negotiation of the chain's format, extent, present mode and image count
//! from what the device reports for the surface.

use vstd::prelude::*;

verus! {

/// The preferred image format: 8-bit BGRA with sRGB encoding.
pub const FORMAT_B8G8R8A8_SRGB: i32 = 50;

/// The preferred color space: non-linear sRGB.
pub const COLOR_SPACE_SRGB_NONLINEAR: i32 = 0;

/// Present modes, as the device numbers them.
pub const PRESENT_MODE_IMMEDIATE: i32 = 0;

pub const PRESENT_MODE_MAILBOX: i32 = 1;

pub const PRESENT_MODE_FIFO: i32 = 2;

/// A width and height in pixels.
#[derive(Copy, Clone, Debug, PartialEq, Eq, Structural)]
pub struct Extent2D {
    pub width: u32,
    pub height: u32,
}

/// An image format paired with the color space it is presented in.
#[derive(Copy, Clone, Debug, PartialEq, Eq, Structural)]
pub struct SurfaceFormat {
    pub format: i32,
    pub color_space: i32,
}

/// What the device reports about a surface.
///
/// A `max_image_count` of 0 means there is no upper bound; a current extent
/// whose width is `u32::MAX` means the surface lets the chain pick its size.
#[derive(Copy, Clone, Debug, PartialEq, Eq, Structural)]
pub struct SurfaceCapabilities {
    pub min_image_count: u32,
    pub max_image_count: u32,
    pub current_extent: Extent2D,
    pub min_image_extent: Extent2D,
    pub max_image_extent: Extent2D,
}

/// Everything the chain is created with that is negotiated here.
#[derive(Copy, Clone, Debug, PartialEq, Eq, Structural)]
pub struct SwapchainSettings {
    pub min_image_count: u32,
    pub format: SurfaceFormat,
    pub extent: Extent2D,
    pub present_mode: i32,
}

#[derive(Copy, Clone, Debug, PartialEq, Eq, Structural)]
pub enum SettingsError {
    /// The device lists no format at all for the surface.
    NoSurfaceFormat,
}

pub open spec fn preferred_format() -> SurfaceFormat {
    SurfaceFormat { format: FORMAT_B8G8R8A8_SRGB, color_space: COLOR_SPACE_SRGB_NONLINEAR }
}

pub open spec fn clamp(v: u32, lo: u32, hi: u32) -> u32 {
    if v < lo {
        lo
    } else if v > hi {
        hi
    } else {
        v
    }
}

/// The format the chain uses: the preferred one when offered, else the first.
pub open spec fn chosen_format(formats: Seq<SurfaceFormat>) -> Option<SurfaceFormat> {
    if formats.contains(preferred_format()) {
        Some(preferred_format())
    } else if formats.len() > 0 {
        Some(formats[0])
    } else {
        None
    }
}

/// The present mode the chain uses: mailbox, else immediate, else FIFO
/// (which every device supports).
pub open spec fn chosen_present_mode(modes: Seq<i32>) -> i32 {
    if modes.contains(PRESENT_MODE_MAILBOX) {
        PRESENT_MODE_MAILBOX
    } else if modes.contains(PRESENT_MODE_IMMEDIATE) {
        PRESENT_MODE_IMMEDIATE
    } else {
        PRESENT_MODE_FIFO
    }
}

/// Two more images than the device's minimum, kept within its maximum when it
/// has one.
pub open spec fn chosen_image_count(c: SurfaceCapabilities) -> u32 {
    if c.max_image_count > 0 {
        clamp((c.min_image_count + 2) as u32, c.min_image_count, c.max_image_count)
    } else {
        (c.min_image_count + 2) as u32
    }
}

/// The surface's own extent when it has one, else the framebuffer size
/// clamped to the device's bounds.
pub open spec fn chosen_extent(c: SurfaceCapabilities, framebuffer_size: (u32, u32)) -> Extent2D {
    if c.current_extent.width != u32::MAX {
        c.current_extent
    } else {
        Extent2D {
            width: clamp(framebuffer_size.0, c.min_image_extent.width, c.max_image_extent.width),
            height: clamp(framebuffer_size.1, c.min_image_extent.height, c.max_image_extent.height),
        }
    }
}

/// What a device may report: bounds that are ordered, and a minimum count
/// that leaves room for two more images.
pub open spec fn capabilities_are_valid(c: SurfaceCapabilities) -> bool {
    &&& c.min_image_count <= u32::MAX - 2
    &&& (c.max_image_count > 0 ==> c.min_image_count <= c.max_image_count)
    &&& c.min_image_extent.width <= c.max_image_extent.width
    &&& c.min_image_extent.height <= c.max_image_extent.height
}

fn clamp_u32(v: u32, lo: u32, hi: u32) -> (r: u32)
    requires
        lo <= hi,
    ensures
        r == clamp(v, lo, hi),
{
    if v < lo {
        lo
    } else if v > hi {
        hi
    } else {
        v
    }
}

/// Picks the image format: the preferred sRGB format when the surface offers
/// it, else the first format the surface lists.
pub fn select_image_format(surface_formats: &Vec<SurfaceFormat>) -> (r: Result<
    SurfaceFormat,
    SettingsError,
>)
    ensures
        chosen_format(surface_formats@) is Some ==> r == Ok::<SurfaceFormat, SettingsError>(
            chosen_format(surface_formats@)->0,
        ),
        chosen_format(surface_formats@) is None ==> r == Err::<SurfaceFormat, SettingsError>(
            SettingsError::NoSurfaceFormat,
        ),
{
    let mut i: usize = 0;
    while i < surface_formats.len()
        invariant
            i <= surface_formats.len(),
            forall|j: int| 0 <= j < i ==> surface_formats@[j] != preferred_format(),
        decreases surface_formats.len() - i,
    {
        let f = surface_formats[i];
        assert(f == surface_formats@[i as int]);
        if f.format == FORMAT_B8G8R8A8_SRGB && f.color_space == COLOR_SPACE_SRGB_NONLINEAR {
            assert(surface_formats@.contains(preferred_format()));
            return Ok(f);
        }
        i = i + 1;
    }
    if surface_formats.len() == 0 {
        Err(SettingsError::NoSurfaceFormat)
    } else {
        Ok(surface_formats[0])
    }
}

fn contains_mode(modes: &Vec<i32>, mode: i32) -> (r: bool)
    ensures
        r == modes@.contains(mode),
{
    let mut i: usize = 0;
    while i < modes.len()
        invariant
            i <= modes.len(),
            forall|j: int| 0 <= j < i ==> modes@[j] != mode,
        decreases modes.len() - i,
    {
        if modes[i] == mode {
            assert(modes@[i as int] == mode);
            return true;
        }
        i = i + 1;
    }
    false
}

/// Picks the present mode by a fixed order of preference: mailbox, then
/// immediate, then FIFO.
pub fn select_present_mode(present_modes: &Vec<i32>) -> (r: i32)
    ensures
        r == chosen_present_mode(present_modes@),
{
    if contains_mode(present_modes, PRESENT_MODE_MAILBOX) {
        PRESENT_MODE_MAILBOX
    } else if contains_mode(present_modes, PRESENT_MODE_IMMEDIATE) {
        PRESENT_MODE_IMMEDIATE
    } else {
        PRESENT_MODE_FIFO
    }
}

/// Picks how many images the chain asks for.
pub fn select_image_count(capabilities: &SurfaceCapabilities) -> (r: u32)
    requires
        capabilities_are_valid(*capabilities),
    ensures
        r == chosen_image_count(*capabilities),
{
    let count = capabilities.min_image_count + 2;
    if capabilities.max_image_count > 0 {
        clamp_u32(count, capabilities.min_image_count, capabilities.max_image_count)
    } else {
        count
    }
}

/// Picks the extent of the chain's images.
pub fn select_image_extent(capabilities: &SurfaceCapabilities, framebuffer_size: (u32, u32)) -> (r:
    Extent2D)
    requires
        capabilities_are_valid(*capabilities),
    ensures
        r == chosen_extent(*capabilities, framebuffer_size),
{
    if capabilities.current_extent.width != u32::MAX {
        return capabilities.current_extent;
    }
    let (desired_width, desired_height) = framebuffer_size;
    Extent2D {
        width: clamp_u32(
            desired_width,
            capabilities.min_image_extent.width,
            capabilities.max_image_extent.width,
        ),
        height: clamp_u32(
            desired_height,
            capabilities.min_image_extent.height,
            capabilities.max_image_extent.height,
        ),
    }
}

/// Negotiates every setting of a new chain from what the device reports for
/// the surface and the size of the window's framebuffer.
///
/// Fails only when the surface lists no format.
pub fn swapchain_settings(
    capabilities: &SurfaceCapabilities,
    surface_formats: &Vec<SurfaceFormat>,
    present_modes: &Vec<i32>,
    framebuffer_size: (u32, u32),
) -> (r: Result<SwapchainSettings, SettingsError>)
    requires
        capabilities_are_valid(*capabilities),
    ensures
        surface_formats@.len() == 0 <==> r is Err,
        r is Err ==> r->Err_0 == SettingsError::NoSurfaceFormat,
        r is Ok ==> r->Ok_0 == (SwapchainSettings {
            min_image_count: chosen_image_count(*capabilities),
            format: chosen_format(surface_formats@)->0,
            extent: chosen_extent(*capabilities, framebuffer_size),
            present_mode: chosen_present_mode(present_modes@),
        }),
{
    let format = match select_image_format(surface_formats) {
        Ok(format) => format,
        Err(e) => {
            return Err(e);
        },
    };
    Ok(
        SwapchainSettings {
            min_image_count: select_image_count(capabilities),
            format,
            extent: select_image_extent(capabilities, framebuffer_size),
            present_mode: select_present_mode(present_modes),
        },
    )
}

} // verus!
