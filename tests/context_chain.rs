use ash::vk;
use ash::vk::DebugUtilsMessageSeverityFlagsEXT as sev;
use ash::vk::DebugUtilsMessageTypeFlagsEXT as ty;
use vku::debug_utils::{should_report, ALL_MESSAGE_TYPES, ALL_SEVERITIES, SEVERITY_ERROR, SEVERITY_INFO, SEVERITY_VERBOSE, SEVERITY_WARNING, TYPE_GENERAL, TYPE_PERFORMANCE, TYPE_VALIDATION};
use vku::instance::app_info;
use vku::swapchain::{image_details, COMPOSITE_ALPHA_OPAQUE, IMAGE_USAGE_COLOR_ATTACHMENT, SHARING_MODE_CONCURRENT, SHARING_MODE_EXCLUSIVE};
use vku::{DeviceConfig, SurfaceFormat, SwapchainProperties, Error, Extent2D, ImageDetails, ImageSharing, Resource, ResourceChain, ResourceKind};

/// A stand-in for the driver: it hands out handles and records what it destroys.
struct FakeDriver {
    next: u64,
    destroyed: Vec<(ResourceKind, u64)>,
}

impl FakeDriver {
    fn create(&mut self, chain: &mut ResourceChain, kind: ResourceKind) -> u64 {
        self.next += 1;
        chain.add(kind, self.next).unwrap();
        self.next
    }

    fn tear_down(&mut self, chain: &mut ResourceChain) {
        while let Some(Resource { kind, handle }) = chain.release() {
            self.destroyed.push((kind, handle));
        }
    }
}

#[test]
fn teardown_reverses_creation() {
    let mut driver = FakeDriver { next: 0, destroyed: vec![] };
    let mut chain = ResourceChain::new();
    let order = [
        ResourceKind::Instance,
        ResourceKind::DebugMessenger,
        ResourceKind::Surface,
        ResourceKind::Device,
        ResourceKind::Swapchain,
    ];
    let handles: Vec<u64> = order.iter().map(|&k| driver.create(&mut chain, k)).collect();
    let expected: Vec<(ResourceKind, u64)> =
        order.iter().copied().zip(handles.iter().copied()).rev().collect();
    let planned: Vec<(ResourceKind, u64)> =
        chain.teardown_order().iter().map(|r| (r.kind, r.handle)).collect();
    assert_eq!(planned, expected);
    driver.tear_down(&mut chain);
    assert_eq!(driver.destroyed, expected);
    assert_eq!(chain.release(), None);
}

#[test]
fn capabilities_visible_through_the_chain() {
    let mut chain = ResourceChain::new();
    assert!(!chain.holds(ResourceKind::Instance));
    chain.add(ResourceKind::Instance, 10).unwrap();
    chain.add(ResourceKind::Surface, 20).unwrap();
    assert_eq!(chain.handle_of(ResourceKind::Instance), Some(10));
    assert_eq!(chain.handle_of(ResourceKind::Surface), Some(20));
    assert_eq!(chain.handle_of(ResourceKind::Device), None);
    assert!(!chain.has_prerequisites(ResourceKind::Swapchain));
    chain.add(ResourceKind::Device, 30).unwrap();
    assert!(chain.has_prerequisites(ResourceKind::Swapchain));
}

#[test]
fn creation_out_of_order_refused() {
    let mut chain = ResourceChain::new();
    assert_eq!(chain.add(ResourceKind::Surface, 1), Err(Error::MissingPrerequisite));
    assert_eq!(chain.add(ResourceKind::Instance, 1), Ok(()));
    assert_eq!(chain.add(ResourceKind::Instance, 2), Err(Error::ResourceHeld));
    assert_eq!(chain.add(ResourceKind::Device, 3), Ok(()));
    assert_eq!(chain.add(ResourceKind::Swapchain, 4), Err(Error::MissingPrerequisite));
    assert_eq!(chain.add(ResourceKind::Device, 5), Err(Error::ResourceHeld));
    assert_eq!(chain.teardown_order().len(), 2);
}

#[test]
fn noisy_general_messages_filtered() {
    assert!(!should_report(SEVERITY_VERBOSE, TYPE_GENERAL));
    assert!(!should_report(SEVERITY_INFO, TYPE_GENERAL));
    assert!(should_report(SEVERITY_INFO, TYPE_VALIDATION));
    assert!(should_report(SEVERITY_VERBOSE, TYPE_PERFORMANCE));
    assert!(should_report(SEVERITY_WARNING, TYPE_GENERAL));
    assert!(should_report(SEVERITY_ERROR, TYPE_GENERAL));
}

#[test]
fn debug_constants_match_vulkan() {
    assert_eq!(ALL_SEVERITIES, (sev::VERBOSE | sev::INFO | sev::WARNING | sev::ERROR).as_raw());
    assert_eq!(ALL_MESSAGE_TYPES, (ty::GENERAL | ty::VALIDATION | ty::PERFORMANCE).as_raw());
    assert_eq!(SEVERITY_INFO, sev::INFO.as_raw());
    assert_eq!(TYPE_VALIDATION, ty::VALIDATION.as_raw());
}

#[test]
fn application_description() {
    let info = app_info();
    assert_eq!(info.application_version, vk::make_api_version(0, 0, 1, 0));
    assert_eq!(info.application_version, 4096);
    assert_eq!(info.engine_version, 4096);
    assert_eq!(info.api_version, vk::API_VERSION_1_0);
    assert_eq!(info.api_version, 1 << 22);
    assert_eq!(info.engine_name, b"No Engine".to_vec());
}

#[test]
fn sharing_converted() {
    assert_eq!(ImageSharing::Exclusive.vk_convert(), (SHARING_MODE_EXCLUSIVE, vec![]));
    assert_eq!(ImageSharing::Concurrent(vec![0, 2]).vk_convert(), (SHARING_MODE_CONCURRENT, vec![0, 2]));
    assert_eq!(SHARING_MODE_CONCURRENT, vk::SharingMode::CONCURRENT.as_raw());
    assert_eq!(SHARING_MODE_EXCLUSIVE, vk::SharingMode::EXCLUSIVE.as_raw());
}

#[test]
fn swapchain_parameters_from_image_details() {
    let details = ImageDetails {
        count: 3,
        format: vk::Format::R8G8B8A8_SRGB.as_raw(),
        color_space: vk::ColorSpaceKHR::SRGB_NONLINEAR.as_raw(),
        extent: Extent2D { width: 640, height: 480 },
        sharing: ImageSharing::Concurrent(vec![1, 3]),
        transform: vk::SurfaceTransformFlagsKHR::IDENTITY.as_raw(),
        present_mode: vk::PresentModeKHR::FIFO.as_raw(),
    };
    let p = details.create_params();
    assert_eq!(p.min_image_count, 3);
    assert_eq!(p.image_array_layers, 1);
    assert_eq!(p.image_usage, vk::ImageUsageFlags::COLOR_ATTACHMENT.as_raw());
    assert_eq!(p.image_usage, IMAGE_USAGE_COLOR_ATTACHMENT);
    assert_eq!(p.composite_alpha, vk::CompositeAlphaFlagsKHR::OPAQUE.as_raw());
    assert_eq!(p.composite_alpha, COMPOSITE_ALPHA_OPAQUE);
    assert_eq!(p.image_sharing_mode, SHARING_MODE_CONCURRENT);
    assert_eq!(p.queue_family_indices, vec![1, 3]);
    assert_eq!(p.present_mode, vk::PresentModeKHR::FIFO.as_raw());
    assert!(p.clipped);
}

fn props() -> SwapchainProperties {
    SwapchainProperties {
        format: SurfaceFormat { format: 43, color_space: 0 },
        present_mode: 1,
        extent: Extent2D { width: 640, height: 480 },
        image_count: 3,
        transform: vk::SurfaceTransformFlagsKHR::ROTATE_90.as_raw(),
    }
}

#[test]
fn image_details_of_selected_device() {
    let shared = DeviceConfig { graphics_queue_id: 2, present_queue_id: 2, swapchain: Some(props()) };
    let d = image_details(&shared).unwrap();
    assert_eq!((d.count, d.format, d.color_space, d.present_mode), (3, 43, 0, 1));
    assert_eq!(d.extent, Extent2D { width: 640, height: 480 });
    assert_eq!(d.transform, vk::SurfaceTransformFlagsKHR::ROTATE_90.as_raw());
    assert!(matches!(d.sharing, ImageSharing::Exclusive));

    let split = DeviceConfig { graphics_queue_id: 1, present_queue_id: 3, swapchain: Some(props()) };
    let d = image_details(&split).unwrap();
    assert!(matches!(d.sharing, ImageSharing::Concurrent(ref v) if *v == vec![1, 3]));

    let none = DeviceConfig { graphics_queue_id: 0, present_queue_id: 0, swapchain: None };
    assert!(image_details(&none).is_none());
}
