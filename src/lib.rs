//! The core of a real-time Vulkan renderer: N frames in flight pipelined
//! with the GPU without races, the presentation chain's status rules and
//! settings, and the composable device-memory allocator.
//!
//! Device work (fence waits, image acquisition and presentation, queue
//! submission, memory allocation) is done by the caller with the handles this
//! crate names; the crate decides which objects that work uses and keeps the
//! state that the decisions depend on.

use vstd::prelude::*;

pub mod allocator;
pub mod app;
pub mod frames_in_flight;
pub mod spirv;
pub mod swapchain;
pub mod texture;
pub mod utility;

pub use self::{
    allocator::{
        device_allocator::DeviceAllocator, owned_block::OwnedBlock,
        type_index_allocator::TypeIndexAllocator, AllocationRequirements, Block,
        ComposableAllocator,
    },
    app::AppState,
    frames_in_flight::{Frame, FrameStatus, FramesInFlight},
    spirv::spirv_words,
    swapchain::{AcquireImageStatus, PresentImageStatus, Swapchain},
    texture::{Material, Texture},
    utility::round_to_power_of_two,
};

verus! {

/// `a / b` rounded toward zero, as integer division does on machine
/// integers.
pub open spec fn trunc_div(a: int, b: int) -> int {
    if a == 0 {
        0
    } else if a > 0 && b > 0 {
        a / b
    } else if a < 0 && b < 0 {
        (-a) / (-b)
    } else if a < 0 {
        -((-a) / b)
    } else {
        -(a / (-b))
    }
}

pub open spec fn fits_i64(v: int) -> bool {
    i64::MIN <= v <= i64::MAX
}

/// The slope of the line through `(u, s)` and `(v, t)`.
pub open spec fn map_slope(u: int, v: int, s: int, t: int) -> int {
    trunc_div(s - t, u - v)
}

/// The offset of the line through `(u, s)` and `(v, t)`.
pub open spec fn map_offset(u: int, v: int, s: int, t: int) -> int {
    trunc_div(t * u - v * s, u - v)
}

/// No step of [map] leaves the range of `i64`.
pub open spec fn map_fits(x: int, u: int, v: int, s: int, t: int) -> bool {
    &&& fits_i64(s - t)
    &&& fits_i64(u - v)
    &&& fits_i64(t * u)
    &&& fits_i64(v * s)
    &&& fits_i64(t * u - v * s)
    &&& fits_i64(map_slope(u, v, s, t))
    &&& fits_i64(map_offset(u, v, s, t))
    &&& fits_i64(x * map_slope(u, v, s, t))
    &&& fits_i64(x * map_slope(u, v, s, t) + map_offset(u, v, s, t))
}

fn div_toward_zero(a: i64, b: i64) -> (r: i64)
    requires
        b != 0,
        fits_i64(trunc_div(a as int, b as int)),
    ensures
        r == trunc_div(a as int, b as int),
{
    match a.checked_div(b) {
        Some(q) => q,
        None => 0,
    }
}

/// Maps `x` linearly from `input_range` onto `output_range`: the start of
/// one goes to the start of the other, and the end to the end.
///
/// The slope and the offset of the line are each rounded toward zero.
pub fn map(x: i64, input_range: std::ops::Range<i64>, output_range: std::ops::Range<i64>) -> (r:
    i64)
    requires
        input_range.start != input_range.end,
        map_fits(
            x as int,
            input_range.start as int,
            input_range.end as int,
            output_range.start as int,
            output_range.end as int,
        ),
    ensures
        r == x * map_slope(
            input_range.start as int,
            input_range.end as int,
            output_range.start as int,
            output_range.end as int,
        ) + map_offset(
            input_range.start as int,
            input_range.end as int,
            output_range.start as int,
            output_range.end as int,
        ),
{
    let (u, v) = (input_range.start, input_range.end);
    let (s, t) = (output_range.start, output_range.end);
    let m = div_toward_zero(s - t, u - v);
    let b = div_toward_zero(t * u - v * s, u - v);
    x * m + b
}

} // verus!
