//! The engine's error: which call failed, and why.

use vstd::prelude::*;

verus! {

/// A Vulkan result code, as the raw number that `ash::vk::Result` holds.
#[derive(Clone, Copy, Debug, PartialEq, Eq, Structural)]
pub struct VkResult {
    pub code: i32,
}

/// What `gpu-allocator` reports when it cannot sub-allocate memory, one
/// variant for each of its `AllocationError`'s.
#[derive(Clone, Debug)]
pub enum AllocationFailure {
    OutOfMemory,
    FailedToMap(String),
    NoCompatibleMemoryTypeFound,
    InvalidAllocationCreateDesc,
    InvalidAllocatorCreateDesc(String),
    Internal(String),
    BarrierLayoutNeedsDevice10,
    CastableFormatsRequiresEnhancedBarriers,
    CastableFormatsRequiresAtLeastDevice12,
}

/// Why the engine stopped.
#[derive(Debug)]
pub enum Error {
    /// A Vulkan call returned an error result.
    Vulkan { op: &'static str, result: VkResult },
    /// `gpu-allocator` could not sub-allocate device memory.
    Allocation { op: &'static str, source: AllocationFailure },
    /// SDL failed: init, video subsystem, window, event pump or surface.
    Sdl { op: &'static str, message: String },
    /// The machine has Vulkan, but does not meet one of the engine's
    /// requirements.
    Unsupported(String),
}

/// How ash writes the Vulkan result `code`: the result's description, or
/// its name and number where ash knows none.
pub uninterp spec fn vk_result_display(code: i32) -> Seq<char>;

/// Calls `Display::fmt` of `ash::vk::Result::from_raw(code)` through
/// `format!`. The text is named, not stated: ash picks it by the code
/// alone.
#[verifier::external_body]
fn vk_result_text(code: i32) -> (s: String)
    ensures
        s@ == vk_result_display(code),
{
    format!("{}", ash::vk::Result::from_raw(code))
}

/// How `gpu-allocator` writes its error: the messages of its
/// `AllocationError`.
pub open spec fn allocation_text(failure: AllocationFailure) -> Seq<char> {
    match failure {
        AllocationFailure::OutOfMemory => "Out of memory"@,
        AllocationFailure::FailedToMap(m) => "Failed to map memory: "@ + m@,
        AllocationFailure::NoCompatibleMemoryTypeFound => "No compatible memory type available"@,
        AllocationFailure::InvalidAllocationCreateDesc => "Invalid AllocationCreateDesc"@,
        AllocationFailure::InvalidAllocatorCreateDesc(m) => "Invalid AllocatorCreateDesc "@ + m@,
        AllocationFailure::Internal(m) => "Internal error: "@ + m@,
        AllocationFailure::BarrierLayoutNeedsDevice10 => "Initial `BARRIER_LAYOUT` needs at least `Device10`"@,
        AllocationFailure::CastableFormatsRequiresEnhancedBarriers => "Castable formats require enhanced barriers"@,
        AllocationFailure::CastableFormatsRequiresAtLeastDevice12 => "Castable formats require at least `Device12`"@,
    }
}

/// How the error reads in messages.
pub open spec fn error_text(error: Error) -> Seq<char> {
    match error {
        Error::Vulkan { op, result } => "failed to "@ + op@ + ": "@ + vk_result_display(result.code),
        Error::Allocation { op, source } => "failed to "@ + op@ + ": "@ + allocation_text(source),
        Error::Sdl { op, message } => "failed to "@ + op@ + ": "@ + message@,
        Error::Unsupported(what) => "unsupported: "@ + what@,
    }
}

impl AllocationFailure {
    /// How the allocator's error reads in messages.
    pub fn describe(&self) -> (s: String)
        ensures
            s@ == allocation_text(*self),
    {
        let mut text = String::new();
        match self {
            AllocationFailure::OutOfMemory => text.append("Out of memory"),
            AllocationFailure::FailedToMap(m) => {
                text.append("Failed to map memory: ");
                text.append(m.as_str());
            },
            AllocationFailure::NoCompatibleMemoryTypeFound => text.append(
                "No compatible memory type available",
            ),
            AllocationFailure::InvalidAllocationCreateDesc => text.append(
                "Invalid AllocationCreateDesc",
            ),
            AllocationFailure::InvalidAllocatorCreateDesc(m) => {
                text.append("Invalid AllocatorCreateDesc ");
                text.append(m.as_str());
            },
            AllocationFailure::Internal(m) => {
                text.append("Internal error: ");
                text.append(m.as_str());
            },
            AllocationFailure::BarrierLayoutNeedsDevice10 => text.append(
                "Initial `BARRIER_LAYOUT` needs at least `Device10`",
            ),
            AllocationFailure::CastableFormatsRequiresEnhancedBarriers => text.append(
                "Castable formats require enhanced barriers",
            ),
            AllocationFailure::CastableFormatsRequiresAtLeastDevice12 => text.append(
                "Castable formats require at least `Device12`",
            ),
        }
        proof {
            assert(text@ =~= allocation_text(*self));
        }
        text
    }
}

impl Error {
    pub fn unsupported(what: String) -> (e: Error)
        ensures
            e matches Error::Unsupported(w) && w@ == what@,
    {
        Error::Unsupported(what)
    }

    /// How the error reads in messages: `"failed to <op>: <why>"`, or
    /// `"unsupported: <what>"`.
    pub fn describe(&self) -> (s: String)
        ensures
            s@ == error_text(*self),
    {
        let mut text = String::new();
        match self {
            Error::Unsupported(what) => {
                text.append("unsupported: ");
                text.append(what.as_str());
            },
            Error::Sdl { op, message } => {
                text.append("failed to ");
                text.append(op);
                text.append(": ");
                text.append(message.as_str());
            },
            Error::Vulkan { op, result } => {
                text.append("failed to ");
                text.append(op);
                text.append(": ");
                let detail = vk_result_text(result.code);
                text.append(detail.as_str());
            },
            Error::Allocation { op, source } => {
                text.append("failed to ");
                text.append(op);
                text.append(": ");
                let detail = source.describe();
                text.append(detail.as_str());
            },
        }
        proof {
            assert(text@ =~= error_text(*self));
        }
        text
    }
}

/// Turns the error of an outside call into the engine's, naming the
/// operation that failed.
pub trait IntoError: Sized {
    /// The engine's error for `self`, when `op` failed with it.
    spec fn into_error_spec(self, op: &'static str) -> Error;

    fn into_error(self, op: &'static str) -> (e: Error)
        ensures
            e == self.into_error_spec(op),
    ;
}

impl IntoError for VkResult {
    open spec fn into_error_spec(self, op: &'static str) -> Error {
        Error::Vulkan { op, result: self }
    }

    fn into_error(self, op: &'static str) -> (e: Error) {
        Error::Vulkan { op, result: self }
    }
}

impl IntoError for AllocationFailure {
    open spec fn into_error_spec(self, op: &'static str) -> Error {
        Error::Allocation { op, source: self }
    }

    fn into_error(self, op: &'static str) -> (e: Error) {
        Error::Allocation { op, source: self }
    }
}

/// Attaches the failed operation to the error of an outside call.
pub trait Context<T>: Sized {
    fn context(self, op: &'static str) -> core::result::Result<T, Error>;
}

impl<T, E: IntoError> Context<T> for core::result::Result<T, E> {
    fn context(self, op: &'static str) -> (r: core::result::Result<T, Error>)
        ensures
            self matches Ok(v) ==> r == Ok::<T, Error>(v),
            self matches Err(x) ==> r == Err::<T, Error>(x.into_error_spec(op)),
    {
        match self {
            Ok(value) => Ok(value),
            Err(error) => Err(error.into_error(op)),
        }
    }
}

} // verus!
