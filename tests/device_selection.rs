use ash::vk;
use vku::names::{instance_extension_names, requires_swapchain};
use vku::queue_family::{queue_family_creation_infos, queue_slots, validate_queue_plan, PRIORITY_ONE};
use vku::selection::{
    evaluate_device, find_graphics_family, find_present_family, select_device,
    DEVICE_TYPE_DISCRETE_GPU, DEVICE_TYPE_INTEGRATED_GPU, QUEUE_GRAPHICS_BIT,
};
use vku::surface::{COLOR_SPACE_SRGB_NONLINEAR, FORMAT_R8G8B8A8_SRGB, PRESENT_MODE_MAILBOX};
use vku::{
    DeviceConfig, DeviceReport, Error, Extent2D, QueueFamily, QueueFamilyInfo, SurfaceCapabilities,
    SurfaceDetails, SurfaceFormat,
};

fn name(s: &str) -> Vec<u8> {
    s.as_bytes().to_vec()
}

fn family(flags: vk::QueueFlags, presentable: Result<bool, Error>) -> QueueFamily {
    QueueFamily { queue_flags: flags.as_raw(), queue_count: 1, presentable }
}

fn surface() -> SurfaceDetails {
    SurfaceDetails {
        capabilities: Ok(SurfaceCapabilities {
            min_image_count: 2,
            max_image_count: 0,
            current_extent: Extent2D { width: 640, height: 480 },
            min_image_extent: Extent2D { width: 1, height: 1 },
            max_image_extent: Extent2D { width: 4096, height: 4096 },
            current_transform: 1,
        }),
        formats: Ok(vec![SurfaceFormat {
            format: FORMAT_R8G8B8A8_SRGB,
            color_space: COLOR_SPACE_SRGB_NONLINEAR,
        }]),
        present_modes: Ok(vec![PRESENT_MODE_MAILBOX]),
    }
}

fn good_device() -> DeviceReport {
    DeviceReport {
        device_type: vk::PhysicalDeviceType::DISCRETE_GPU.as_raw(),
        tessellation_shader: vk::TRUE,
        extensions: Ok(vec![name("VK_KHR_maintenance1"), name("VK_KHR_swapchain")]),
        queue_families: vec![
            family(vk::QueueFlags::TRANSFER, Ok(true)),
            family(vk::QueueFlags::GRAPHICS | vk::QueueFlags::COMPUTE, Ok(false)),
        ],
        surface: Some(surface()),
    }
}

fn required() -> Vec<Vec<u8>> {
    vec![name("VK_KHR_swapchain")]
}

const WIN: Extent2D = Extent2D { width: 200, height: 200 };

#[test]
fn device_constants_match_vulkan() {
    assert_eq!(DEVICE_TYPE_DISCRETE_GPU, vk::PhysicalDeviceType::DISCRETE_GPU.as_raw());
    assert_eq!(DEVICE_TYPE_INTEGRATED_GPU, vk::PhysicalDeviceType::INTEGRATED_GPU.as_raw());
    assert_eq!(QUEUE_GRAPHICS_BIT, vk::QueueFlags::GRAPHICS.as_raw());
}

#[test]
fn suitable_device_gets_its_parameters() {
    let c = evaluate_device(&good_device(), &required(), WIN).unwrap();
    assert_eq!(c.graphics_queue_id, 1);
    assert_eq!(c.present_queue_id, 0);
    let s = c.swapchain.unwrap();
    assert_eq!(s.present_mode, PRESENT_MODE_MAILBOX);
    assert_eq!(s.extent, Extent2D { width: 640, height: 480 });
    assert_eq!(s.image_count, 3);
}

#[test]
fn no_swapchain_parameters_when_not_required() {
    let mut d = good_device();
    d.surface = None;
    let c = evaluate_device(&d, &vec![name("VK_KHR_maintenance1")], WIN).unwrap();
    assert_eq!(c.swapchain, None);
    assert!(evaluate_device(&d, &required(), WIN).is_none());
}

#[test]
fn unsuitable_devices_rejected() {
    let mut cpu = good_device();
    cpu.device_type = vk::PhysicalDeviceType::CPU.as_raw();
    assert!(evaluate_device(&cpu, &required(), WIN).is_none());

    let mut integrated = good_device();
    integrated.device_type = vk::PhysicalDeviceType::INTEGRATED_GPU.as_raw();
    assert!(evaluate_device(&integrated, &required(), WIN).is_some());

    let mut no_tess = good_device();
    no_tess.tessellation_shader = vk::FALSE;
    assert!(evaluate_device(&no_tess, &required(), WIN).is_none());

    let mut no_ext = good_device();
    no_ext.extensions = Ok(vec![name("VK_KHR_maintenance1")]);
    assert!(evaluate_device(&no_ext, &required(), WIN).is_none());

    let mut ext_failed = good_device();
    ext_failed.extensions = Err(Error::Native(vk::Result::ERROR_OUT_OF_HOST_MEMORY.as_raw()));
    assert!(evaluate_device(&ext_failed, &required(), WIN).is_none());

    let mut no_graphics = good_device();
    no_graphics.queue_families = vec![family(vk::QueueFlags::COMPUTE, Ok(true))];
    assert!(evaluate_device(&no_graphics, &required(), WIN).is_none());

    let mut no_present = good_device();
    no_present.queue_families = vec![family(vk::QueueFlags::GRAPHICS, Ok(false))];
    assert!(evaluate_device(&no_present, &required(), WIN).is_none());
}

#[test]
fn failed_present_query_counts_as_unsupported() {
    let fams = vec![
        family(vk::QueueFlags::GRAPHICS, Err(Error::Native(vk::Result::ERROR_SURFACE_LOST_KHR.as_raw()))),
        family(vk::QueueFlags::GRAPHICS, Ok(true)),
    ];
    assert_eq!(find_present_family(&fams), Some(1));
    assert_eq!(find_graphics_family(&fams), Some(0));
    assert_eq!(find_present_family(&vec![]), None);
    assert_eq!(find_graphics_family(&vec![]), None);
}

#[test]
fn first_suitable_device_selected() {
    let mut cpu = good_device();
    cpu.device_type = vk::PhysicalDeviceType::CPU.as_raw();
    let mut lacking = good_device();
    lacking.extensions = Ok(vec![]);
    let mut second = good_device();
    second.queue_families = vec![family(vk::QueueFlags::GRAPHICS, Ok(true))];
    let reports = vec![cpu, lacking, good_device(), second];
    let (i, c) = select_device(&reports, &required(), WIN).unwrap();
    assert_eq!(i, 2);
    assert_eq!((c.graphics_queue_id, c.present_queue_id), (1, 0));
}

#[test]
fn no_suitable_device() {
    let mut cpu = good_device();
    cpu.device_type = vk::PhysicalDeviceType::VIRTUAL_GPU.as_raw();
    assert_eq!(select_device(&vec![cpu], &required(), WIN), Err(Error::NoSuitableDevice));
    assert_eq!(select_device(&vec![], &required(), WIN), Err(Error::NoSuitableDevice));
}

fn config(g: u32, p: u32) -> DeviceConfig {
    DeviceConfig { graphics_queue_id: g, present_queue_id: p, swapchain: None }
}

#[test]
fn shared_family_planned_once() {
    let plan = queue_family_creation_infos(&config(2, 2));
    assert_eq!(plan.len(), 1);
    assert_eq!(plan[0].index, 2);
    assert_eq!(plan[0].priorities, vec![PRIORITY_ONE]);
    assert_eq!(validate_queue_plan(&plan), Ok(()));
}

#[test]
fn distinct_families_planned_twice() {
    let plan = queue_family_creation_infos(&config(1, 3));
    assert_eq!(plan.len(), 2);
    assert_eq!((plan[0].index, plan[1].index), (1, 3));
    assert_eq!(plan[1].priorities, vec![PRIORITY_ONE]);
    assert_eq!(validate_queue_plan(&plan), Ok(()));
}

fn info(index: u32, n: usize) -> QueueFamilyInfo {
    QueueFamilyInfo { index, priorities: vec![PRIORITY_ONE / n.max(1) as u32; n] }
}

#[test]
fn invalid_plans_rejected() {
    assert_eq!(validate_queue_plan(&vec![]), Err(Error::EmptyQueuePlan));
    let dup = vec![info(0, 1), info(4, 1), info(0, 2)];
    assert_eq!(validate_queue_plan(&dup), Err(Error::DuplicateQueueFamily));
    let adjacent = vec![info(4, 1), info(4, 1)];
    assert_eq!(validate_queue_plan(&adjacent), Err(Error::DuplicateQueueFamily));
}

#[test]
fn queue_slots_listed_per_priority() {
    let plan = vec![info(3, 2), info(0, 1), info(5, 0)];
    assert_eq!(queue_slots(&plan), vec![(3, 0), (3, 1), (0, 0)]);
    assert_eq!(queue_slots(&vec![]), vec![]);
}

#[test]
fn swapchain_requirement_detected() {
    assert!(requires_swapchain(&required()));
    assert!(requires_swapchain(&vec![name("VK_KHR_maintenance1"), name("VK_KHR_swapchain")]));
    assert!(!requires_swapchain(&vec![name("VK_KHR_swapchain_mutable_format")]));
    assert!(!requires_swapchain(&vec![]));
    let ash_name = ash::extensions::khr::Swapchain::name().to_bytes().to_vec();
    assert!(requires_swapchain(&vec![ash_name]));
}

#[test]
fn instance_extensions_lead_with_debug_and_surface() {
    let names = instance_extension_names(vec![name("VK_KHR_xlib_surface")]);
    assert_eq!(
        names,
        vec![name("VK_EXT_debug_utils"), name("VK_KHR_surface"), name("VK_KHR_xlib_surface")]
    );
    assert_eq!(instance_extension_names(vec![]).len(), 2);
}
