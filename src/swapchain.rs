use vstd::prelude::*;

use crate::selection::DeviceConfig;
use crate::surface::Extent2D;

verus! {

/// Raw value of `VK_SHARING_MODE_EXCLUSIVE`.
pub const SHARING_MODE_EXCLUSIVE: i32 = 0;

/// Raw value of `VK_SHARING_MODE_CONCURRENT`.
pub const SHARING_MODE_CONCURRENT: i32 = 1;

/// Raw value of `VK_IMAGE_USAGE_COLOR_ATTACHMENT_BIT`.
pub const IMAGE_USAGE_COLOR_ATTACHMENT: u32 = 0x10;

/// Raw value of `VK_COMPOSITE_ALPHA_OPAQUE_BIT_KHR`.
pub const COMPOSITE_ALPHA_OPAQUE: u32 = 0x1;

/// How the images are shared between the queue families.
#[derive(Clone, Debug)]
pub enum ImageSharing {
    /// One queue family owns an image at a time; ownership moves explicitly.
    Exclusive,
    /// The images are shared between the queue families listed.
    Concurrent(Vec<u32>),
}

impl ImageSharing {
    /// The sharing mode and the queue families it names, as Vulkan takes them.
    pub fn vk_convert(&self) -> (r: (i32, Vec<u32>))
        ensures
            match self {
                ImageSharing::Exclusive => r.0 == SHARING_MODE_EXCLUSIVE && r.1@.len() == 0,
                ImageSharing::Concurrent(v) => r.0 == SHARING_MODE_CONCURRENT && r.1@ == v@,
            },
    {
        match self {
            ImageSharing::Exclusive => (SHARING_MODE_EXCLUSIVE, Vec::new()),
            ImageSharing::Concurrent(v) => {
                let mut families: Vec<u32> = Vec::new();
                let mut i: usize = 0;
                while i < v.len()
                    invariant
                        i <= v@.len(),
                        families@ == v@.take(i as int),
                    decreases v@.len() - i,
                {
                    families.push(v[i]);
                    proof {
                        assert(families@ =~= v@.take(i as int + 1));
                    }
                    i = i + 1;
                }
                proof {
                    assert(v@.take(v@.len() as int) =~= v@);
                }
                (SHARING_MODE_CONCURRENT, families)
            },
        }
    }
}

/// What the images of a swapchain are to be. Every value must be one the selection derived
/// for the device and surface at hand.
#[derive(Clone, Debug)]
pub struct ImageDetails {
    /// Number of buffered images.
    pub count: u32,
    /// Raw `VkFormat` value.
    pub format: i32,
    /// Raw `VkColorSpaceKHR` value.
    pub color_space: i32,
    pub extent: Extent2D,
    pub sharing: ImageSharing,
    /// Raw `VkSurfaceTransformFlagBitsKHR` value applied before presentation.
    pub transform: u32,
    /// Raw `VkPresentModeKHR` value.
    pub present_mode: i32,
}

/// Everything a swapchain is created with, as Vulkan takes it.
#[derive(Clone, Debug)]
pub struct SwapchainCreateParams {
    pub min_image_count: u32,
    pub image_format: i32,
    pub image_color_space: i32,
    pub image_extent: Extent2D,
    pub image_array_layers: u32,
    pub image_usage: u32,
    pub image_sharing_mode: i32,
    pub queue_family_indices: Vec<u32>,
    pub pre_transform: u32,
    pub composite_alpha: u32,
    pub present_mode: i32,
    pub clipped: bool,
}

impl ImageDetails {
    /// The creation parameters of a swapchain with these images: single-layer colour
    /// attachments, opaque, clipped.
    pub fn create_params(&self) -> (r: SwapchainCreateParams)
        ensures
            r.min_image_count == self.count,
            r.image_format == self.format,
            r.image_color_space == self.color_space,
            r.image_extent == self.extent,
            r.image_array_layers == 1,
            r.image_usage == IMAGE_USAGE_COLOR_ATTACHMENT,
            match self.sharing {
                ImageSharing::Exclusive => r.image_sharing_mode == SHARING_MODE_EXCLUSIVE
                    && r.queue_family_indices@.len() == 0,
                ImageSharing::Concurrent(v) => r.image_sharing_mode == SHARING_MODE_CONCURRENT
                    && r.queue_family_indices@ == v@,
            },
            r.pre_transform == self.transform,
            r.composite_alpha == COMPOSITE_ALPHA_OPAQUE,
            r.present_mode == self.present_mode,
            r.clipped,
    {
        let (image_sharing_mode, queue_family_indices) = self.sharing.vk_convert();
        SwapchainCreateParams {
            min_image_count: self.count,
            image_format: self.format,
            image_color_space: self.color_space,
            image_extent: self.extent,
            image_array_layers: 1,
            image_usage: IMAGE_USAGE_COLOR_ATTACHMENT,
            image_sharing_mode,
            queue_family_indices,
            pre_transform: self.transform,
            composite_alpha: COMPOSITE_ALPHA_OPAQUE,
            present_mode: self.present_mode,
            clipped: true,
        }
    }
}

/// The images of the swapchain for a selected device: the derived swapchain parameters,
/// shared by the graphics and present families when they differ, else owned exclusively.
/// Nothing when the device was selected without swapchain parameters.
pub fn image_details(c: &DeviceConfig) -> (r: Option<ImageDetails>)
    ensures
        c.swapchain is None ==> r is None,
        c.swapchain matches Some(p) ==> r matches Some(d) && {
            &&& d.count == p.image_count
            &&& d.format == p.format.format
            &&& d.color_space == p.format.color_space
            &&& d.extent == p.extent
            &&& d.transform == p.transform
            &&& d.present_mode == p.present_mode
            &&& if c.graphics_queue_id == c.present_queue_id {
                d.sharing is Exclusive
            } else {
                d.sharing matches ImageSharing::Concurrent(v) && v@ == seq![
                    c.graphics_queue_id,
                    c.present_queue_id,
                ]
            }
        },
{
    let p = match c.swapchain {
        Some(p) => p,
        None => return None,
    };
    let sharing = if c.graphics_queue_id == c.present_queue_id {
        ImageSharing::Exclusive
    } else {
        let v: Vec<u32> = vec![c.graphics_queue_id, c.present_queue_id];
        proof {
            assert(v@ =~= seq![c.graphics_queue_id, c.present_queue_id]);
        }
        ImageSharing::Concurrent(v)
    };
    Some(
        ImageDetails {
            count: p.image_count,
            format: p.format.format,
            color_space: p.format.color_space,
            extent: p.extent,
            sharing,
            transform: p.transform,
            present_mode: p.present_mode,
        },
    )
}

} // verus!
