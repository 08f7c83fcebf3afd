use engine::error::{AllocationFailure, Context, Error, IntoError, VkResult};
use gpu_allocator::AllocationError as E;
use engine::sdl_error::SdlError;
use engine::text::push_decimal;

#[test]
fn vulkan_errors_name_the_operation() {
    let lost = VkResult { code: ash::vk::Result::ERROR_DEVICE_LOST.as_raw() };
    let failed: Result<u32, VkResult> = Err(lost);
    match failed.context("wait for the device to become idle") {
        Err(Error::Vulkan { op, result }) => {
            assert_eq!(op, "wait for the device to become idle");
            assert_eq!(result, lost);
        }
        other => panic!("unexpected {other:?}"),
    }
    let fine: Result<u32, VkResult> = Ok(7);
    assert_eq!(fine.context("anything").unwrap(), 7);
}

#[test]
fn allocation_errors_name_the_operation() {
    match AllocationFailure::OutOfMemory.into_error("allocate buffer memory") {
        Error::Allocation { op, source } => {
            assert_eq!(op, "allocate buffer memory");
            assert!(matches!(source, AllocationFailure::OutOfMemory));
        }
        other => panic!("unexpected {other:?}"),
    }
}

#[test]
fn unsupported_keeps_the_message() {
    match Error::unsupported(String::from("dynamic surface extent")) {
        Error::Unsupported(m) => assert_eq!(m, "dynamic surface extent"),
        other => panic!("unexpected {other:?}"),
    }
}

#[test]
fn sdl_errors_read_with_and_without_message() {
    let bare = SdlError::with_message("SDL_Init", String::new());
    assert_eq!(bare.call(), "SDL_Init");
    assert_eq!(bare.message(), "");
    assert_eq!(bare.describe(), "SDL_Init failed");
    let full = SdlError::with_message("SDL_Init", String::from("SDL is already initialized"));
    assert_eq!(full.describe(), "SDL_Init failed: SDL is already initialized");
}

#[test]
fn decimal_rendering() {
    for n in [0usize, 7, 10, 42, 1000, 65535, usize::MAX] {
        let mut out = String::from("n=");
        push_decimal(&mut out, n);
        assert_eq!(out, format!("n={n}"));
    }
}

#[test]
fn sdl_initializes_once() {
    assert!(engine::sdl_error::claim_init(false).is_ok());
    let error = engine::sdl_error::claim_init(true).unwrap_err();
    assert_eq!(error.call(), "SDL_Init");
    assert_eq!(error.message(), "SDL is already initialized");
    assert_eq!(error.describe(), "SDL_Init failed: SDL is already initialized");
}

#[test]
fn check_reads_the_message_only_on_failure() {
    let reads = std::cell::Cell::new(0);
    let read = || {
        reads.set(reads.get() + 1);
        String::from("No such window")
    };
    assert!(engine::sdl_error::check("SDL_SetWindowPosition", true, read).is_ok());
    assert_eq!(reads.get(), 0);
    let error = engine::sdl_error::check("SDL_SetWindowPosition", false, || {
        reads.set(reads.get() + 1);
        String::from("No such window")
    })
    .unwrap_err();
    assert_eq!(reads.get(), 1);
    assert_eq!(error.call(), "SDL_SetWindowPosition");
    assert_eq!(error.message(), "No such window");
}

#[test]
fn errors_read_as_the_failed_operation() {
    let sdl = Error::Sdl { op: "create the window", message: String::from("No video device") };
    assert_eq!(sdl.describe(), "failed to create the window: No video device");
    assert_eq!(
        Error::unsupported(String::from("dynamic surface extent")).describe(),
        "unsupported: dynamic surface extent"
    );
    for result in [
        ash::vk::Result::ERROR_DEVICE_LOST,
        ash::vk::Result::ERROR_OUT_OF_DATE_KHR,
        ash::vk::Result::from_raw(-12345),
    ] {
        let vulkan = VkResult { code: result.as_raw() }.into_error("present the swapchain image");
        assert_eq!(vulkan.describe(), format!("failed to present the swapchain image: {result}"));
    }
    assert_eq!(
        VkResult { code: -4 }.into_error("submit").describe(),
        "failed to submit: The logical device has been lost. See <https://registry.khronos.org/vulkan/specs/1.3-extensions/html/vkspec.html#devsandqueues-lost-device>"
    );
    let allocation = AllocationFailure::Internal(String::from("no block")).into_error("allocate buffer memory");
    assert_eq!(allocation.describe(), "failed to allocate buffer memory: Internal error: no block");
}

#[test]
fn allocation_failures_read_as_gpu_allocator_writes_them() {
    let pairs = vec![
        (AllocationFailure::OutOfMemory, E::OutOfMemory),
        (AllocationFailure::FailedToMap(String::from("x")), E::FailedToMap(String::from("x"))),
        (AllocationFailure::NoCompatibleMemoryTypeFound, E::NoCompatibleMemoryTypeFound),
        (AllocationFailure::InvalidAllocationCreateDesc, E::InvalidAllocationCreateDesc),
        (AllocationFailure::InvalidAllocatorCreateDesc(String::from("y")), E::InvalidAllocatorCreateDesc(String::from("y"))),
        (AllocationFailure::Internal(String::from("z")), E::Internal(String::from("z"))),
        (AllocationFailure::BarrierLayoutNeedsDevice10, E::BarrierLayoutNeedsDevice10),
        (AllocationFailure::CastableFormatsRequiresEnhancedBarriers, E::CastableFormatsRequiresEnhancedBarriers),
        (AllocationFailure::CastableFormatsRequiresAtLeastDevice12, E::CastableFormatsRequiresAtLeastDevice12),
    ];
    for (ours, theirs) in pairs {
        assert_eq!(ours.describe(), theirs.to_string());
    }
}

#[test]
fn allocation_results_take_the_operation() {
    let failed: Result<(), AllocationFailure> = Err(AllocationFailure::OutOfMemory);
    match failed.context("create the GPU allocator") {
        Err(Error::Allocation { op, source }) => {
            assert_eq!(op, "create the GPU allocator");
            assert!(matches!(source, AllocationFailure::OutOfMemory));
            assert_eq!(
                Error::Allocation { op, source }.describe(),
                "failed to create the GPU allocator: Out of memory"
            );
        }
        other => panic!("unexpected {other:?}"),
    }
}
