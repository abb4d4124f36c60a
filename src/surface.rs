use vstd::prelude::*;

use crate::error::Error;

verus! {

/// Raw value of `VK_FORMAT_R8G8B8A8_SRGB`.
pub const FORMAT_R8G8B8A8_SRGB: i32 = 43;

/// Raw value of `VK_COLOR_SPACE_SRGB_NONLINEAR_KHR`.
pub const COLOR_SPACE_SRGB_NONLINEAR: i32 = 0;

/// A (format, color space) pair a surface reports as supported.
#[derive(Clone, Copy, Debug, PartialEq, Eq, Structural)]
pub struct SurfaceFormat {
    /// Raw `VkFormat` value.
    pub format: i32,
    /// Raw `VkColorSpaceKHR` value.
    pub color_space: i32,
}

/// The pair every surface is preferably rendered with: 8-bit RGBA sRGB, non-linear sRGB space.
pub open spec fn preferred_format() -> SurfaceFormat {
    SurfaceFormat { format: FORMAT_R8G8B8A8_SRGB, color_space: COLOR_SPACE_SRGB_NONLINEAR }
}

/// The format chosen among those reported: the preferred pair wherever it appears,
/// else the first reported pair; nothing for an empty list.
pub open spec fn chosen_format(fmts: Seq<SurfaceFormat>) -> Option<SurfaceFormat> {
    if fmts.contains(preferred_format()) {
        Some(preferred_format())
    } else if fmts.len() > 0 {
        Some(fmts[0])
    } else {
        None
    }
}

/// Chooses the swapchain format among the formats reported for a surface.
pub fn choose_format(fmts: &Vec<SurfaceFormat>) -> (r: Option<SurfaceFormat>)
    ensures
        r == chosen_format(fmts@),
{
    let mut i: usize = 0;
    while i < fmts.len()
        invariant
            i <= fmts@.len(),
            forall|j: int| 0 <= j < i ==> fmts@[j] != preferred_format(),
        decreases fmts@.len() - i,
    {
        let f = fmts[i];
        if f.format == FORMAT_R8G8B8A8_SRGB && f.color_space == COLOR_SPACE_SRGB_NONLINEAR {
            proof {
                assert(fmts@[i as int] == preferred_format());
            }
            return Some(f);
        }
        i = i + 1;
    }
    if fmts.len() > 0 {
        Some(fmts[0])
    } else {
        None
    }
}

/// Raw value of `VK_PRESENT_MODE_MAILBOX_KHR`.
pub const PRESENT_MODE_MAILBOX: i32 = 1;

/// Raw value of `VK_PRESENT_MODE_FIFO_KHR`, which every surface supports.
pub const PRESENT_MODE_FIFO: i32 = 2;

/// The present mode chosen among those reported: mailbox when available, else FIFO;
/// nothing for an empty list.
pub open spec fn chosen_present_mode(modes: Seq<i32>) -> Option<i32> {
    if modes.len() == 0 {
        None
    } else if modes.contains(PRESENT_MODE_MAILBOX) {
        Some(PRESENT_MODE_MAILBOX)
    } else {
        Some(PRESENT_MODE_FIFO)
    }
}

/// Chooses the swapchain present mode among the raw `VkPresentModeKHR` values reported.
pub fn choose_present_mode(modes: &Vec<i32>) -> (r: Option<i32>)
    ensures
        r == chosen_present_mode(modes@),
{
    if modes.len() == 0 {
        return None;
    }
    let mut i: usize = 0;
    while i < modes.len()
        invariant
            i <= modes@.len(),
            forall|j: int| 0 <= j < i ==> modes@[j] != PRESENT_MODE_MAILBOX,
        decreases modes@.len() - i,
    {
        if modes[i] == PRESENT_MODE_MAILBOX {
            return Some(PRESENT_MODE_MAILBOX);
        }
        i = i + 1;
    }
    Some(PRESENT_MODE_FIFO)
}

/// A two-dimensional size in pixels.
#[derive(Clone, Copy, Debug, PartialEq, Eq, Structural)]
pub struct Extent2D {
    pub width: u32,
    pub height: u32,
}

/// What a surface reports of the swapchains it accepts.
#[derive(Clone, Copy, Debug, PartialEq, Eq, Structural)]
pub struct SurfaceCapabilities {
    pub min_image_count: u32,
    /// Zero when there is no upper bound.
    pub max_image_count: u32,
    /// `(u32::MAX, u32::MAX)` when the swapchain decides the surface size.
    pub current_extent: Extent2D,
    pub min_image_extent: Extent2D,
    pub max_image_extent: Extent2D,
    /// Raw `VkSurfaceTransformFlagBitsKHR` value of the current transform.
    pub current_transform: u32,
}

/// `v` brought into `[lo, hi]`: `lo` below it, `hi` above it.
pub open spec fn clamped(v: u32, lo: u32, hi: u32) -> u32 {
    if v < lo {
        lo
    } else if v > hi {
        hi
    } else {
        v
    }
}

/// Whether the surface leaves the swapchain extent to the application.
pub open spec fn extent_is_free(caps: SurfaceCapabilities) -> bool {
    caps.current_extent.width == u32::MAX && caps.current_extent.height == u32::MAX
}

/// The swapchain extent: the window size clamped into the reported range when the surface
/// leaves it free, else the surface's current extent.
pub open spec fn chosen_extent(caps: SurfaceCapabilities, win: Extent2D) -> Extent2D {
    if extent_is_free(caps) {
        Extent2D {
            width: clamped(win.width, caps.min_image_extent.width, caps.max_image_extent.width),
            height: clamped(win.height, caps.min_image_extent.height, caps.max_image_extent.height),
        }
    } else {
        caps.current_extent
    }
}

fn clamp_u32(v: u32, lo: u32, hi: u32) -> (r: u32)
    ensures
        r == clamped(v, lo, hi),
{
    if v < lo {
        lo
    } else if v > hi {
        hi
    } else {
        v
    }
}

/// Chooses the swapchain extent for a window of size `win`.
pub fn choose_extent(caps: &SurfaceCapabilities, win: Extent2D) -> (r: Extent2D)
    ensures
        r == chosen_extent(*caps, win),
{
    if caps.current_extent.width == u32::MAX && caps.current_extent.height == u32::MAX {
        Extent2D {
            width: clamp_u32(win.width, caps.min_image_extent.width, caps.max_image_extent.width),
            height: clamp_u32(
                win.height,
                caps.min_image_extent.height,
                caps.max_image_extent.height,
            ),
        }
    } else {
        caps.current_extent
    }
}

/// The number of swapchain images: one more than the minimum, within the maximum when
/// there is one.
pub open spec fn chosen_image_count(caps: SurfaceCapabilities) -> int {
    if caps.max_image_count == 0 {
        caps.min_image_count + 1
    } else if caps.max_image_count < caps.min_image_count + 1 {
        caps.max_image_count as int
    } else {
        caps.min_image_count + 1
    }
}

/// Whether the image count fits the `u32` that Vulkan takes.
pub open spec fn image_count_fits(caps: SurfaceCapabilities) -> bool {
    chosen_image_count(caps) <= u32::MAX
}

/// Chooses the number of swapchain images.
pub fn choose_image_count(caps: &SurfaceCapabilities) -> (r: u32)
    requires
        image_count_fits(*caps),
    ensures
        r == chosen_image_count(*caps),
{
    if caps.max_image_count == 0 {
        caps.min_image_count + 1
    } else if caps.max_image_count <= caps.min_image_count {
        caps.max_image_count
    } else {
        caps.min_image_count + 1
    }
}

/// What the queries of a surface against one physical device returned.
#[derive(Debug)]
pub struct SurfaceDetails {
    pub capabilities: Result<SurfaceCapabilities, Error>,
    pub formats: Result<Vec<SurfaceFormat>, Error>,
    /// Raw `VkPresentModeKHR` values.
    pub present_modes: Result<Vec<i32>, Error>,
}

/// The parameters a swapchain on the surface is created with.
#[derive(Clone, Copy, Debug, PartialEq, Eq, Structural)]
pub struct SwapchainProperties {
    pub format: SurfaceFormat,
    pub present_mode: i32,
    pub extent: Extent2D,
    pub image_count: u32,
    /// Raw `VkSurfaceTransformFlagBitsKHR` value: the surface's current transform.
    pub transform: u32,
}

/// The swapchain parameters derived from a surface's details for a window of size `win`:
/// nothing when a query failed, no format or present mode is reported, or the image count
/// does not fit a `u32`.
pub open spec fn swapchain_properties_of(d: SurfaceDetails, win: Extent2D) -> Option<
    SwapchainProperties,
> {
    match (d.capabilities, d.formats, d.present_modes) {
        (Ok(caps), Ok(fmts), Ok(modes)) => {
            match (chosen_format(fmts@), chosen_present_mode(modes@)) {
                (Some(format), Some(present_mode)) => {
                    if image_count_fits(caps) {
                        Some(
                            SwapchainProperties {
                                format,
                                present_mode,
                                extent: chosen_extent(caps, win),
                                image_count: chosen_image_count(caps) as u32,
                                transform: caps.current_transform,
                            },
                        )
                    } else {
                        None
                    }
                },
                _ => None,
            }
        },
        _ => None,
    }
}

/// Derives the swapchain parameters from a surface's details for a window of size `win`.
pub fn swapchain_properties(d: &SurfaceDetails, win: Extent2D) -> (r: Option<SwapchainProperties>)
    ensures
        r == swapchain_properties_of(*d, win),
{
    let caps = match &d.capabilities {
        Ok(c) => *c,
        Err(_) => return None,
    };
    let fmts = match &d.formats {
        Ok(f) => f,
        Err(_) => return None,
    };
    let modes = match &d.present_modes {
        Ok(m) => m,
        Err(_) => return None,
    };
    let format = match choose_format(fmts) {
        Some(f) => f,
        None => return None,
    };
    let present_mode = match choose_present_mode(modes) {
        Some(m) => m,
        None => return None,
    };
    if caps.max_image_count == 0 && caps.min_image_count == u32::MAX {
        return None;
    }
    Some(
        SwapchainProperties {
            format,
            present_mode,
            extent: choose_extent(&caps, win),
            image_count: choose_image_count(&caps),
            transform: caps.current_transform,
        },
    )
}

} // verus!
