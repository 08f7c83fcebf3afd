use engine::device::{
    api_version_1_4, choose_swap_extent, choose_swap_image_count, choose_swap_present_mode,
    choose_swap_surface_format, is_device_suitable, next_graphics_family, no_queue_family_error,
    pick_physical_device, DeviceProperties, Extent2D, SurfaceCapabilities, SurfaceFormat,
};
use engine::error::Error;

fn discrete(api_version: u32) -> DeviceProperties {
    DeviceProperties { api_version, device_type: 2, geometry_shader: 1 }
}

#[test]
fn api_version_1_4_matches_vulkan_packing() {
    assert_eq!(api_version_1_4(), (1 << 22) | (4 << 12));
    assert_eq!(api_version_1_4(), ash::vk::make_api_version(0, 1, 4, 0));
}

#[test]
fn suitability_needs_all_three() {
    let v = api_version_1_4();
    assert!(is_device_suitable(&discrete(v)));
    assert!(is_device_suitable(&discrete(v + 1)));
    assert!(!is_device_suitable(&discrete(v - 1)));
    assert!(!is_device_suitable(&DeviceProperties { api_version: v, device_type: 1, geometry_shader: 1 }));
    assert!(!is_device_suitable(&DeviceProperties { api_version: v, device_type: 2, geometry_shader: 0 }));
}

#[test]
fn pick_reports_no_gpu() {
    match pick_physical_device(&vec![]) {
        Err(Error::Unsupported(m)) => assert_eq!(m, "no GPU with Vulkan support"),
        other => panic!("unexpected {other:?}"),
    }
}

#[test]
fn pick_reports_how_many_were_unsuitable() {
    let devices = vec![discrete(0); 3];
    match pick_physical_device(&devices) {
        Err(Error::Unsupported(m)) => assert_eq!(
            m,
            "none of the 3 GPUs is discrete with Vulkan 1.4 and a geometry shader"
        ),
        other => panic!("unexpected {other:?}"),
    }
    let devices = vec![discrete(0); 12];
    match pick_physical_device(&devices) {
        Err(Error::Unsupported(m)) => assert_eq!(
            m,
            "none of the 12 GPUs is discrete with Vulkan 1.4 and a geometry shader"
        ),
        other => panic!("unexpected {other:?}"),
    }
}

#[test]
fn pick_takes_the_first_suitable() {
    let v = api_version_1_4();
    let devices = vec![discrete(0), discrete(v), discrete(v)];
    assert_eq!(pick_physical_device(&devices).unwrap(), 1);
}

#[test]
fn graphics_families_are_found_in_order() {
    let flags = vec![0b100, 0b011, 0b110, 0b001];
    assert_eq!(next_graphics_family(&flags, 0), Some(1));
    assert_eq!(next_graphics_family(&flags, 2), Some(3));
    assert_eq!(next_graphics_family(&flags, 4), None);
    assert_eq!(next_graphics_family(&vec![0b100], 0), None);
    match no_queue_family_error() {
        Error::Unsupported(m) => assert_eq!(
            m,
            "no queue family supports both graphics and presentation for this surface"
        ),
        other => panic!("unexpected {other:?}"),
    }
}

#[test]
fn surface_format_prefers_bgra_srgb() {
    let formats = vec![
        SurfaceFormat { format: 44, color_space: 0 },
        SurfaceFormat { format: 50, color_space: 0 },
    ];
    assert_eq!(choose_swap_surface_format(&formats), formats[1]);
    let formats = vec![
        SurfaceFormat { format: 44, color_space: 0 },
        SurfaceFormat { format: 50, color_space: 1 },
    ];
    assert_eq!(choose_swap_surface_format(&formats), formats[0]);
    assert_eq!(
        ash::vk::Format::B8G8R8A8_SRGB.as_raw(),
        50
    );
}

#[test]
fn present_mode_is_fifo() {
    assert_eq!(choose_swap_present_mode(&vec![0, 1, 2, 3]), ash::vk::PresentModeKHR::FIFO.as_raw());
}

fn caps(width: u32, height: u32, min: u32, max: u32) -> SurfaceCapabilities {
    SurfaceCapabilities {
        current_extent: Extent2D { width, height },
        min_image_count: min,
        max_image_count: max,
    }
}

#[test]
fn extent_is_the_current_one() {
    assert_eq!(choose_swap_extent(&caps(800, 600, 2, 8)).unwrap(), Extent2D { width: 800, height: 600 });
    match choose_swap_extent(&caps(u32::MAX, u32::MAX, 2, 8)) {
        Err(Error::Unsupported(m)) => assert_eq!(m, "dynamic surface extent"),
        other => panic!("unexpected {other:?}"),
    }
    assert_eq!(
        choose_swap_extent(&caps(0xFFFF_0000, 0x0000_FFFF, 2, 8)).unwrap(),
        Extent2D { width: 0xFFFF_0000, height: 0x0000_FFFF }
    );
    assert_eq!(
        choose_swap_extent(&caps(u32::MAX, 600, 2, 8)).unwrap(),
        Extent2D { width: u32::MAX, height: 600 }
    );
}

#[test]
fn image_count_is_three_within_bounds() {
    assert_eq!(choose_swap_image_count(&caps(1, 1, 2, 8)), 3);
    assert_eq!(choose_swap_image_count(&caps(1, 1, 4, 8)), 4);
    assert_eq!(choose_swap_image_count(&caps(1, 1, 1, 2)), 2);
    assert_eq!(choose_swap_image_count(&caps(1, 1, 2, 0)), 3);
    assert_eq!(choose_swap_image_count(&caps(1, 1, 5, 0)), 5);
}
