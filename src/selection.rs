use vstd::prelude::*;

use crate::error::Error;
use crate::names::{
    includes_all, includes_all_names, name_views, requires_swapchain, swapchain_extension,
};
use crate::surface::{
    swapchain_properties, swapchain_properties_of, Extent2D, SurfaceDetails, SwapchainProperties,
};

verus! {

/// Raw value of `VK_PHYSICAL_DEVICE_TYPE_INTEGRATED_GPU`.
pub const DEVICE_TYPE_INTEGRATED_GPU: i32 = 1;

/// Raw value of `VK_PHYSICAL_DEVICE_TYPE_DISCRETE_GPU`.
pub const DEVICE_TYPE_DISCRETE_GPU: i32 = 2;

/// Raw value of `VK_QUEUE_GRAPHICS_BIT`.
pub const QUEUE_GRAPHICS_BIT: u32 = 1;

/// What a physical device reports of one of its queue families.
#[derive(Clone, Copy, Debug)]
pub struct QueueFamily {
    /// Raw `VkQueueFlags` bits.
    pub queue_flags: u32,
    pub queue_count: u32,
    /// Whether the family can present to the bound surface, or the query's error.
    pub presentable: Result<bool, Error>,
}

/// What the queries of one physical device returned.
#[derive(Debug)]
pub struct DeviceReport {
    /// Raw `VkPhysicalDeviceType` value.
    pub device_type: i32,
    /// The `tessellationShader` feature, as a `VkBool32`.
    pub tessellation_shader: u32,
    /// Names of the device extensions, without terminating nul, or the query's error.
    pub extensions: Result<Vec<Vec<u8>>, Error>,
    /// The queue families, in the device's order.
    pub queue_families: Vec<QueueFamily>,
    /// The surface queries, when they were made.
    pub surface: Option<SurfaceDetails>,
}

/// The parameters derived for a device found suitable.
#[derive(Clone, Copy, Debug, PartialEq, Eq, Structural)]
pub struct DeviceConfig {
    /// The first queue family with graphics capability.
    pub graphics_queue_id: u32,
    /// The first queue family that can present to the surface.
    pub present_queue_id: u32,
    /// The swapchain parameters, when the swapchain extension is required.
    pub swapchain: Option<SwapchainProperties>,
}

impl DeviceReport {
    /// Whether every queue family index fits the `u32` that Vulkan takes.
    pub open spec fn indices_fit(&self) -> bool {
        self.queue_families@.len() <= u32::MAX
    }
}

pub open spec fn has_graphics(f: QueueFamily) -> bool {
    f.queue_flags & QUEUE_GRAPHICS_BIT == QUEUE_GRAPHICS_BIT
}

pub open spec fn can_present(f: QueueFamily) -> bool {
    f.presentable == Ok::<bool, Error>(true)
}

pub open spec fn is_first_graphics(fams: Seq<QueueFamily>, i: int) -> bool {
    &&& 0 <= i < fams.len()
    &&& has_graphics(fams[i])
    &&& forall|j: int| 0 <= j < i ==> !has_graphics(#[trigger] fams[j])
}

pub open spec fn is_first_present(fams: Seq<QueueFamily>, i: int) -> bool {
    &&& 0 <= i < fams.len()
    &&& can_present(fams[i])
    &&& forall|j: int| 0 <= j < i ==> !can_present(#[trigger] fams[j])
}

/// The index of the first graphics-capable family, if any.
pub open spec fn graphics_family(fams: Seq<QueueFamily>) -> Option<int> {
    if exists|i: int| is_first_graphics(fams, i) {
        Some(choose|i: int| is_first_graphics(fams, i))
    } else {
        None
    }
}

/// The index of the first family that can present to the surface, if any.
pub open spec fn present_family(fams: Seq<QueueFamily>) -> Option<int> {
    if exists|i: int| is_first_present(fams, i) {
        Some(choose|i: int| is_first_present(fams, i))
    } else {
        None
    }
}

/// Whether the device type is a discrete or an integrated GPU.
pub open spec fn accepted_device_type(t: i32) -> bool {
    t == DEVICE_TYPE_DISCRETE_GPU || t == DEVICE_TYPE_INTEGRATED_GPU
}

/// The swapchain part of a device's parameters: `None` when the device cannot serve the
/// required swapchain, `Some(None)` when no swapchain is required.
pub open spec fn swapchain_choice(
    r: DeviceReport,
    required: Seq<Seq<u8>>,
    win: Extent2D,
) -> Option<Option<SwapchainProperties>> {
    if !required.contains(swapchain_extension()) {
        Some(None)
    } else {
        match r.surface {
            Some(d) => match swapchain_properties_of(d, win) {
                Some(p) => Some(Some(p)),
                None => None,
            },
            None => None,
        }
    }
}

/// The parameters of a device if it is suitable: tessellation shaders, a discrete or
/// integrated GPU, every required extension, the swapchain parameters when a swapchain is
/// required, a graphics family and a presenting family.
pub open spec fn device_config_of(r: DeviceReport, required: Seq<Seq<u8>>, win: Extent2D) -> Option<
    DeviceConfig,
> {
    if r.tessellation_shader == 0 || !accepted_device_type(r.device_type) {
        None
    } else {
        match r.extensions {
            Err(_) => None,
            Ok(exts) => if !includes_all(name_views(exts@), required) {
                None
            } else {
                match (
                    swapchain_choice(r, required, win),
                    graphics_family(r.queue_families@),
                    present_family(r.queue_families@),
                ) {
                    (Some(swapchain), Some(g), Some(p)) => Some(
                        DeviceConfig {
                            graphics_queue_id: g as u32,
                            present_queue_id: p as u32,
                            swapchain,
                        },
                    ),
                    _ => None,
                }
            },
        }
    }
}

proof fn lemma_first_graphics_unique(fams: Seq<QueueFamily>, i: int)
    requires
        is_first_graphics(fams, i),
    ensures
        graphics_family(fams) == Some(i),
{
    let k = choose|k: int| is_first_graphics(fams, k);
    if k < i {
        assert(!has_graphics(fams[k]));
    } else if k > i {
        assert(!has_graphics(fams[i]));
    }
}

proof fn lemma_first_present_unique(fams: Seq<QueueFamily>, i: int)
    requires
        is_first_present(fams, i),
    ensures
        present_family(fams) == Some(i),
{
    let k = choose|k: int| is_first_present(fams, k);
    if k < i {
        assert(!can_present(fams[k]));
    } else if k > i {
        assert(!can_present(fams[i]));
    }
}

/// Finds the first queue family with graphics capability.
pub fn find_graphics_family(fams: &Vec<QueueFamily>) -> (r: Option<usize>)
    ensures
        r matches Some(i) ==> graphics_family(fams@) == Some(i as int),
        r is None ==> graphics_family(fams@) is None,
{
    let mut i: usize = 0;
    while i < fams.len()
        invariant
            i <= fams@.len(),
            forall|j: int| 0 <= j < i ==> !has_graphics(#[trigger] fams@[j]),
        decreases fams@.len() - i,
    {
        if fams[i].queue_flags & QUEUE_GRAPHICS_BIT == QUEUE_GRAPHICS_BIT {
            proof {
                lemma_first_graphics_unique(fams@, i as int);
            }
            return Some(i);
        }
        i = i + 1;
    }
    proof {
        assert(!exists|k: int| is_first_graphics(fams@, k));
    }
    None
}

/// Finds the first queue family that can present to the surface; a family whose query
/// failed counts as one that cannot.
pub fn find_present_family(fams: &Vec<QueueFamily>) -> (r: Option<usize>)
    ensures
        r matches Some(i) ==> present_family(fams@) == Some(i as int),
        r is None ==> present_family(fams@) is None,
{
    let mut i: usize = 0;
    while i < fams.len()
        invariant
            i <= fams@.len(),
            forall|j: int| 0 <= j < i ==> !can_present(#[trigger] fams@[j]),
        decreases fams@.len() - i,
    {
        let presentable = match fams[i].presentable {
            Ok(b) => b,
            Err(_) => false,
        };
        if presentable {
            proof {
                lemma_first_present_unique(fams@, i as int);
            }
            return Some(i);
        }
        i = i + 1;
    }
    proof {
        assert(!exists|k: int| is_first_present(fams@, k));
    }
    None
}

/// Checks whether a device is suitable and, if it is, derives its parameters for a window
/// of size `win`.
pub fn evaluate_device(r: &DeviceReport, required: &Vec<Vec<u8>>, win: Extent2D) -> (c: Option<
    DeviceConfig,
>)
    requires
        r.indices_fit(),
    ensures
        c == device_config_of(*r, name_views(required@), win),
{
    let exts = match &r.extensions {
        Ok(e) => e,
        Err(_) => return None,
    };
    if r.tessellation_shader == 0 {
        return None;
    }
    if !(r.device_type == DEVICE_TYPE_DISCRETE_GPU || r.device_type == DEVICE_TYPE_INTEGRATED_GPU) {
        return None;
    }
    if !includes_all_names(exts, required) {
        return None;
    }
    let swapchain = if requires_swapchain(required) {
        match &r.surface {
            Some(d) => match swapchain_properties(d, win) {
                Some(p) => Some(p),
                None => return None,
            },
            None => return None,
        }
    } else {
        None
    };
    let g = match find_graphics_family(&r.queue_families) {
        Some(g) => g,
        None => return None,
    };
    let p = match find_present_family(&r.queue_families) {
        Some(p) => p,
        None => return None,
    };
    Some(DeviceConfig { graphics_queue_id: g as u32, present_queue_id: p as u32, swapchain })
}

/// Whether every device's queue family indices fit a `u32`.
pub open spec fn all_indices_fit(reports: Seq<DeviceReport>) -> bool {
    forall|i: int| 0 <= i < reports.len() ==> (#[trigger] reports[i]).indices_fit()
}

/// Selects the first suitable device, in enumeration order, with its parameters.
pub fn select_device(reports: &Vec<DeviceReport>, required: &Vec<Vec<u8>>, win: Extent2D) -> (r:
    Result<(usize, DeviceConfig), Error>)
    requires
        all_indices_fit(reports@),
    ensures
        match r {
            Ok((i, c)) => {
                &&& i < reports@.len()
                &&& device_config_of(reports@[i as int], name_views(required@), win) == Some(c)
                &&& forall|j: int|
                    0 <= j < i ==> device_config_of(
                        #[trigger] reports@[j],
                        name_views(required@),
                        win,
                    ) is None
            },
            Err(e) => {
                &&& e == Error::NoSuitableDevice
                &&& forall|j: int|
                    0 <= j < reports@.len() ==> device_config_of(
                        #[trigger] reports@[j],
                        name_views(required@),
                        win,
                    ) is None
            },
        },
{
    let mut i: usize = 0;
    while i < reports.len()
        invariant
            i <= reports@.len(),
            all_indices_fit(reports@),
            forall|j: int|
                0 <= j < i ==> device_config_of(
                    #[trigger] reports@[j],
                    name_views(required@),
                    win,
                ) is None,
        decreases reports@.len() - i,
    {
        proof {
            assert(reports@[i as int].indices_fit());
        }
        match evaluate_device(&reports[i], required, win) {
            Some(c) => return Ok((i, c)),
            None => {},
        }
        i = i + 1;
    }
    Err(Error::NoSuitableDevice)
}

} // verus!
