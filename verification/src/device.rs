//! What the engine asks of a GPU, and the choices it makes about the
//! swapchain from what the surface supports. The application queries
//! Vulkan and hands the answers over as plain values.

use vstd::prelude::*;

use crate::error::Error;
use crate::text::{decimal, push_decimal};

verus! {

/// Vulkan's packing of an API version: variant, major, minor and patch in
/// the bits from 29, 22, 12 and 0.
pub open spec fn api_version(variant: u32, major: u32, minor: u32, patch: u32) -> u32 {
    ((variant << 29u32) | (major << 22u32) | (minor << 12u32) | patch) as u32
}

/// Calls `ash::vk::make_api_version`, which packs the four numbers with
/// shifts and bitwise ors.
#[verifier::external_body]
fn make_api_version(variant: u32, major: u32, minor: u32, patch: u32) -> (v: u32)
    ensures
        v == api_version(variant, major, minor, patch),
{
    ash::vk::make_api_version(variant, major, minor, patch)
}

/// Returns `ash::vk::PhysicalDeviceType::DISCRETE_GPU` as its raw number,
/// which ash defines as 2.
#[verifier::external_body]
fn discrete_gpu_type() -> (t: i32)
    ensures
        t == 2,
{
    ash::vk::PhysicalDeviceType::DISCRETE_GPU.as_raw()
}

/// Returns `ash::vk::QueueFlags::GRAPHICS` as its raw bits, which ash
/// defines as bit 0.
#[verifier::external_body]
fn graphics_queue_bit() -> (b: u32)
    ensures
        b == 1,
{
    ash::vk::QueueFlags::GRAPHICS.as_raw()
}

/// Returns `ash::vk::Format::B8G8R8A8_SRGB` as its raw number, which ash
/// defines as 50.
#[verifier::external_body]
fn bgra8_srgb_format() -> (f: i32)
    ensures
        f == 50,
{
    ash::vk::Format::B8G8R8A8_SRGB.as_raw()
}

/// Returns `ash::vk::ColorSpaceKHR::SRGB_NONLINEAR` as its raw number,
/// which ash defines as 0.
#[verifier::external_body]
fn srgb_nonlinear_color_space() -> (c: i32)
    ensures
        c == 0,
{
    ash::vk::ColorSpaceKHR::SRGB_NONLINEAR.as_raw()
}

/// Returns `ash::vk::PresentModeKHR::FIFO` as its raw number, which ash
/// defines as 2.
#[verifier::external_body]
fn fifo_present_mode() -> (m: i32)
    ensures
        m == 2,
{
    ash::vk::PresentModeKHR::FIFO.as_raw()
}

/// The Vulkan version the engine requires: 1.4.
pub fn api_version_1_4() -> (v: u32)
    ensures
        v == api_version(0, 1, 4, 0),
{
    make_api_version(0, 1, 4, 0)
}

/// The properties and features of a GPU that decide whether the engine
/// can use it.
#[derive(Clone, Copy, Debug, PartialEq, Eq, Structural)]
pub struct DeviceProperties {
    /// The Vulkan version the device supports, packed.
    pub api_version: u32,
    /// The device type, as Vulkan's raw number.
    pub device_type: i32,
    /// Whether geometry shaders are supported, as a Vulkan boolean.
    pub geometry_shader: u32,
}

/// The engine needs a discrete GPU with Vulkan 1.4 and geometry shaders.
pub open spec fn suitable(p: DeviceProperties) -> bool {
    &&& p.api_version >= api_version(0, 1, 4, 0)
    &&& p.device_type == 2
    &&& p.geometry_shader != 0
}

pub fn is_device_suitable(device: &DeviceProperties) -> (b: bool)
    ensures
        b == suitable(*device),
{
    if device.api_version < api_version_1_4() {
        return false;
    }
    if device.device_type != discrete_gpu_type() {
        return false;
    }
    if device.geometry_shader == 0 {
        return false;
    }
    true
}

/// The message when no GPU is found.
pub open spec fn no_gpu_message() -> Seq<char> {
    "no GPU with Vulkan support"@
}

/// The message when `found` GPUs are found and none is suitable.
pub open spec fn no_suitable_gpu_message(found: nat) -> Seq<char> {
    "none of the "@ + decimal(found) + " GPUs is discrete with Vulkan 1.4 and a geometry shader"@
}

/// Picks the first suitable GPU, by its position among `devices`.
pub fn pick_physical_device(devices: &Vec<DeviceProperties>) -> (r: Result<usize, Error>)
    ensures
        devices.len() == 0 ==> (r matches Err(Error::Unsupported(m)) && m@ == no_gpu_message()),
        devices.len() > 0 && (forall|i: int| 0 <= i < devices.len() ==> !suitable(devices[i]))
            ==> (r matches Err(Error::Unsupported(m)) && m@ == no_suitable_gpu_message(
            devices.len() as nat,
        )),
        r matches Ok(i) ==> {
            &&& i < devices.len()
            &&& suitable(devices[i as int])
            &&& forall|j: int| 0 <= j < i ==> !suitable(devices[j])
        },
        (exists|i: int| 0 <= i < devices.len() && suitable(devices[i])) ==> r is Ok,
{
    if devices.len() == 0 {
        proof {
            reveal_strlit("no GPU with Vulkan support");
        }
        return Err(Error::unsupported(String::from_str("no GPU with Vulkan support")));
    }
    let found = devices.len();
    let mut i: usize = 0;
    while i < found
        invariant
            found == devices.len(),
            i <= found,
            forall|j: int| 0 <= j < i ==> !suitable(devices[j]),
        decreases found - i,
    {
        if is_device_suitable(&devices[i]) {
            return Ok(i);
        }
        i = i + 1;
    }
    let mut message = String::from_str("none of the ");
    push_decimal(&mut message, found);
    message.append(" GPUs is discrete with Vulkan 1.4 and a geometry shader");
    Err(Error::unsupported(message))
}

/// Whether a queue family with the flags `flags` can run graphics work.
pub open spec fn supports_graphics(flags: u32) -> bool {
    flags & 1u32 != 0
}

/// The first queue family at or after `from` that can run graphics work.
/// The application asks Vulkan whether that family can present to the
/// surface, and asks again from the next one if it cannot.
pub fn next_graphics_family(flags: &Vec<u32>, from: usize) -> (r: Option<usize>)
    ensures
        r matches Some(i) ==> {
            &&& from <= i < flags.len()
            &&& supports_graphics(flags[i as int])
            &&& forall|j: int| from <= j < i ==> !supports_graphics(flags[j])
        },
        r is None ==> forall|j: int| from <= j < flags.len() ==> !supports_graphics(flags[j]),
{
    let graphics = graphics_queue_bit();
    let mut i = from;
    while i < flags.len()
        invariant
            graphics == 1,
            from <= i,
            forall|j: int| from <= j < i ==> !supports_graphics(flags[j]),
        decreases flags.len() - i,
    {
        if flags[i] & graphics != 0 {
            return Some(i);
        }
        i = i + 1;
    }
    None
}

/// The error when no queue family can both draw and present.
pub fn no_queue_family_error() -> (e: Error)
    ensures
        e matches Error::Unsupported(m)
            && m@ == "no queue family supports both graphics and presentation for this surface"@,
{
    Error::unsupported(
        String::from_str("no queue family supports both graphics and presentation for this surface"),
    )
}

/// A pixel format with its color space, as Vulkan's raw numbers.
#[derive(Clone, Copy, Debug, PartialEq, Eq, Structural)]
pub struct SurfaceFormat {
    pub format: i32,
    pub color_space: i32,
}

/// Prefers 8-bit BGRA in sRGB with the non-linear sRGB color space, and
/// otherwise takes the surface's first format.
pub fn choose_swap_surface_format(formats: &Vec<SurfaceFormat>) -> (f: SurfaceFormat)
    requires
        formats.len() > 0,
    ensures
        (exists|i: int|
            0 <= i < formats.len() && formats[i].format == 50 && formats[i].color_space == 0)
            ==> f.format == 50 && f.color_space == 0,
        (forall|i: int|
            0 <= i < formats.len() ==> !(formats[i].format == 50 && formats[i].color_space == 0))
            ==> f == formats[0],
{
    let wanted_format = bgra8_srgb_format();
    let wanted_space = srgb_nonlinear_color_space();
    let mut i: usize = 0;
    while i < formats.len()
        invariant
            wanted_format == 50,
            wanted_space == 0,
            forall|j: int|
                0 <= j < i ==> !(formats[j].format == 50 && formats[j].color_space == 0),
        decreases formats.len() - i,
    {
        let candidate = formats[i];
        if candidate.format == wanted_format && candidate.color_space == wanted_space {
            return candidate;
        }
        i = i + 1;
    }
    formats[0]
}

/// Always first-in first-out presentation, which every surface supports.
pub fn choose_swap_present_mode(present_modes: &Vec<i32>) -> (m: i32)
    ensures
        m == 2,
{
    fifo_present_mode()
}

/// A width and a height, in pixels.
#[derive(Clone, Copy, Debug, PartialEq, Eq, Structural)]
pub struct Extent2D {
    pub width: u32,
    pub height: u32,
}

/// What the surface reports of its size and of its image counts.
#[derive(Clone, Copy, Debug, PartialEq, Eq, Structural)]
pub struct SurfaceCapabilities {
    pub current_extent: Extent2D,
    pub min_image_count: u32,
    /// Zero where the surface sets no maximum.
    pub max_image_count: u32,
}

/// Whether the surface leaves its size to the swapchain: Vulkan's marker is
/// a current extent of `0xFFFFFFFF` by `0xFFFFFFFF`.
pub open spec fn dynamic_extent(e: Extent2D) -> bool {
    e.width == u32::MAX && e.height == u32::MAX
}

/// The swapchain takes the surface's current size. A surface whose size
/// follows the swapchain is not supported.
pub fn choose_swap_extent(capabilities: &SurfaceCapabilities) -> (r: Result<Extent2D, Error>)
    ensures
        dynamic_extent(capabilities.current_extent) ==> (r matches Err(Error::Unsupported(m))
            && m@ == "dynamic surface extent"@),
        !dynamic_extent(capabilities.current_extent) ==> r == Ok::<Extent2D, Error>(
            capabilities.current_extent,
        ),
{
    if capabilities.current_extent.width == u32::MAX && capabilities.current_extent.height
        == u32::MAX {
        return Err(Error::unsupported(String::from_str("dynamic surface extent")));
    }
    Ok(capabilities.current_extent)
}

/// The number of swapchain images the engine wants.
pub const WANTED_IMAGE_COUNT: u32 = 3;

/// Three images, within what the surface allows.
pub open spec fn image_count(c: SurfaceCapabilities) -> u32 {
    if c.max_image_count == 0 {
        if c.min_image_count >= 3 {
            c.min_image_count
        } else {
            3
        }
    } else if 3 < c.min_image_count {
        c.min_image_count
    } else if 3 > c.max_image_count {
        c.max_image_count
    } else {
        3
    }
}

pub fn choose_swap_image_count(capabilities: &SurfaceCapabilities) -> (n: u32)
    requires
        capabilities.max_image_count == 0 || capabilities.min_image_count
            <= capabilities.max_image_count,
    ensures
        n == image_count(*capabilities),
{
    let min = capabilities.min_image_count;
    let max = capabilities.max_image_count;
    if max == 0 {
        return if min >= WANTED_IMAGE_COUNT {
            min
        } else {
            WANTED_IMAGE_COUNT
        };
    }
    if WANTED_IMAGE_COUNT < min {
        min
    } else if WANTED_IMAGE_COUNT > max {
        max
    } else {
        WANTED_IMAGE_COUNT
    }
}

/// Only discrete GPUs are suitable (Vulkan's `DISCRETE_GPU` is 2): a
/// software, integrated or virtual device never is, and neither is one
/// below Vulkan 1.4 or without geometry shaders.
pub proof fn law_only_discrete_gpus_are_suitable(p: DeviceProperties)
    ensures
        suitable(p) ==> p.device_type == 2,
        suitable(p) ==> p.geometry_shader != 0,
        p.device_type != 2 ==> !suitable(p),
{
}

} // verus!
