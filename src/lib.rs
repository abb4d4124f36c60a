//! Ownership model, validation rules and device-selection logic for a Vulkan context chain:
//! which native objects a context owns and in which order they go, which physical device is
//! picked, and with which queues and swapchain parameters.

pub mod chain;
pub mod debug_utils;
pub mod error;
pub mod instance;
pub mod names;
pub mod queue_family;
pub mod selection;
pub mod surface;
pub mod swapchain;

pub use chain::{Resource, ResourceChain, ResourceKind};
pub use error::Error;
pub use queue_family::QueueFamilyInfo;
pub use selection::{DeviceConfig, DeviceReport, QueueFamily};
pub use surface::{Extent2D, SurfaceCapabilities, SurfaceDetails, SurfaceFormat, SwapchainProperties};
pub use swapchain::{ImageDetails, ImageSharing};
