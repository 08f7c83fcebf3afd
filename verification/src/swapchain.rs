//! When the swapchain must be rebuilt, and which frame slot records next.
//! The application acquires and presents images; the outcome of each call
//! comes back here as a plain value, and what to do next is decided here.

use vstd::prelude::*;

verus! {

/// Returns `ash::vk::Result::ERROR_OUT_OF_DATE_KHR` as its raw number,
/// which ash defines as -1000001004.
#[verifier::external_body]
fn out_of_date_code() -> (c: i32)
    ensures
        c == -1000001004,
{
    ash::vk::Result::ERROR_OUT_OF_DATE_KHR.as_raw()
}

/// Vulkan's raw result code for a swapchain that no longer matches its
/// surface.
pub open spec fn out_of_date(code: i32) -> bool {
    code == -1000001004
}

/// How acquiring the next image went.
#[derive(Clone, Copy, Debug, PartialEq, Eq, Structural)]
pub enum AcquireOutcome {
    /// The image `index` was acquired; `suboptimal` when the swapchain no
    /// longer matches the surface exactly but can still be used.
    Acquired { index: u32, suboptimal: bool },
    /// The call failed with the raw result `code`.
    Failed { code: i32 },
}

/// What to do after an acquire.
#[derive(Clone, Copy, Debug, PartialEq, Eq, Structural)]
pub enum AcquireAction {
    /// Render into the image `index`.
    Render { index: u32 },
    /// No image was acquired and the semaphore was not signaled: rebuild the
    /// swapchain now and acquire again with the same semaphore.
    RecreateAndRetry,
    /// Give up with the call's error.
    Fail,
}

/// How presenting went.
#[derive(Clone, Copy, Debug, PartialEq, Eq, Structural)]
pub enum PresentOutcome {
    /// The image was presented; `suboptimal` as for an acquire.
    Presented { suboptimal: bool },
    /// The call failed with the raw result `code`.
    Failed { code: i32 },
}

/// Whether the swapchain must be rebuilt at the next frame boundary.
pub struct SwapchainStatus {
    needs_recreate: bool,
}

impl SwapchainStatus {
    pub closed spec fn needs_recreate(self) -> bool {
        self.needs_recreate
    }

    /// A freshly built swapchain.
    pub fn new() -> (s: SwapchainStatus)
        ensures
            !s.needs_recreate(),
    {
        SwapchainStatus { needs_recreate: false }
    }

    /// Decides after an acquire. A suboptimal image is still rendered and
    /// presented; the rebuild waits for the next frame boundary.
    pub fn after_acquire(&mut self, outcome: AcquireOutcome) -> (action: AcquireAction)
        ensures
            match outcome {
                AcquireOutcome::Acquired { index, suboptimal } => {
                    &&& action == AcquireAction::Render { index }
                    &&& final(self).needs_recreate() == (old(self).needs_recreate() || suboptimal)
                },
                AcquireOutcome::Failed { code } => {
                    &&& action == (if out_of_date(code) {
                        AcquireAction::RecreateAndRetry
                    } else {
                        AcquireAction::Fail
                    })
                    &&& final(self).needs_recreate() == old(self).needs_recreate()
                },
            },
    {
        match outcome {
            AcquireOutcome::Acquired { index, suboptimal } => {
                if suboptimal {
                    self.needs_recreate = true;
                }
                AcquireAction::Render { index }
            },
            AcquireOutcome::Failed { code } => {
                if code == out_of_date_code() {
                    AcquireAction::RecreateAndRetry
                } else {
                    AcquireAction::Fail
                }
            },
        }
    }

    /// Decides after a present: `false` when the call's error must be
    /// reported. The image was consumed either way; a swapchain that went
    /// suboptimal or out of date is rebuilt at the next frame boundary.
    pub fn after_present(&mut self, outcome: PresentOutcome) -> (ok: bool)
        ensures
            match outcome {
                PresentOutcome::Presented { suboptimal } => {
                    &&& ok
                    &&& final(self).needs_recreate() == (old(self).needs_recreate() || suboptimal)
                },
                PresentOutcome::Failed { code } => {
                    &&& ok == out_of_date(code)
                    &&& final(self).needs_recreate() == (old(self).needs_recreate() || out_of_date(
                        code,
                    ))
                },
            },
    {
        match outcome {
            PresentOutcome::Presented { suboptimal } => {
                if suboptimal {
                    self.needs_recreate = true;
                }
                true
            },
            PresentOutcome::Failed { code } => {
                if code == out_of_date_code() {
                    self.needs_recreate = true;
                    true
                } else {
                    false
                }
            },
        }
    }

    /// At the frame boundary: whether to rebuild the swapchain now. The
    /// request is consumed.
    pub fn take_recreate(&mut self) -> (recreate: bool)
        ensures
            recreate == old(self).needs_recreate(),
            !final(self).needs_recreate(),
    {
        if !self.needs_recreate {
            return false;
        }
        self.needs_recreate = false;
        true
    }
}

/// How many frames the CPU may record ahead of the GPU.
pub const MAX_FRAMES_IN_FLIGHT: usize = 2;

/// Which frame slot records the next frame: the slots are used in turn.
pub struct FrameCursor {
    next_slot: usize,
}

impl FrameCursor {
    pub closed spec fn next_slot(self) -> nat {
        self.next_slot as nat
    }

    pub closed spec fn well_formed(self) -> bool {
        self.next_slot < MAX_FRAMES_IN_FLIGHT
    }

    pub fn new() -> (c: FrameCursor)
        ensures
            c.well_formed(),
            c.next_slot() == 0,
            c.next_slot() < MAX_FRAMES_IN_FLIGHT,
    {
        FrameCursor { next_slot: 0 }
    }

    /// The slot of the frame that begins now; the next frame takes the
    /// following one.
    pub fn begin_frame(&mut self) -> (slot: usize)
        requires
            old(self).well_formed(),
        ensures
            final(self).well_formed(),
            slot < MAX_FRAMES_IN_FLIGHT,
            final(self).next_slot() < MAX_FRAMES_IN_FLIGHT,
            slot == old(self).next_slot(),
            final(self).next_slot() == (old(self).next_slot() + 1) % (MAX_FRAMES_IN_FLIGHT as nat),
    {
        let slot = self.next_slot;
        self.next_slot = (self.next_slot + 1) % MAX_FRAMES_IN_FLIGHT;
        slot
    }
}

/// The frame slots alternate: a slot is used again every
/// `MAX_FRAMES_IN_FLIGHT` frames, and never twice in a row.
pub proof fn law_frame_slots_alternate(slot: nat)
    requires
        slot < MAX_FRAMES_IN_FLIGHT,
    ensures
        (slot + 1) % (MAX_FRAMES_IN_FLIGHT as nat) != slot,
        ((slot + 1) % (MAX_FRAMES_IN_FLIGHT as nat) + 1) % (MAX_FRAMES_IN_FLIGHT as nat) == slot,
{
}

} // verus!
