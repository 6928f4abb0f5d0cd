//! What is asked of the driver, and what it answers, as plain values.
//!
//! A handle is the driver's own 64-bit value for an object; a flag set or an
//! enumerant is the number the driver knows it by. The caller performs each
//! `DriverCall` in the order given and stops at the first one that fails.
use vstd::prelude::*;

verus! {

/// The handle that stands for "no object".
pub const NULL_HANDLE: u64 = 0;

/// The timeout that the driver takes as "wait without bound".
pub const NO_TIMEOUT: u64 = 0xffff_ffff_ffff_ffff;

/// The flag with which a fence is created signaled.
pub const FENCE_CREATE_SIGNALED: u32 = 0x1;

/// The flag with which a command buffer's reset hands its memory back.
pub const COMMAND_BUFFER_RESET_RELEASE_RESOURCES: u32 = 0x1;

/// The flag under which a recording is submitted once and then reset.
pub const COMMAND_BUFFER_USAGE_ONE_TIME_SUBMIT: u32 = 0x1;

/// The flag with which a command pool lets each of its buffers be reset.
pub const COMMAND_POOL_CREATE_RESET_COMMAND_BUFFER: u32 = 0x2;

/// The level of a command buffer that is submitted to a queue directly.
pub const COMMAND_BUFFER_LEVEL_PRIMARY: i32 = 0;

/// The driver's code for a swapchain that no longer matches its surface.
pub const ERROR_OUT_OF_DATE: i32 = -1000001004;

/// A width and a height, in pixels.
#[derive(Debug, Copy, Clone, PartialEq, Eq, Structural)]
pub struct Extent2D {
    pub width: u32,
    pub height: u32,
}

/// A width, a height and a depth, in pixels.
#[derive(Debug, Copy, Clone, PartialEq, Eq, Structural)]
pub struct Extent3D {
    pub width: u32,
    pub height: u32,
    pub depth: u32,
}

/// A rectangle of pixels.
#[derive(Debug, Copy, Clone, PartialEq, Eq, Structural)]
pub struct Rect2D {
    pub x: i32,
    pub y: i32,
    pub extent: Extent2D,
}

impl Rect2D {
    /// The rectangle at the origin that covers `extent`.
    pub open spec fn covering(extent: Extent2D) -> Rect2D {
        Rect2D { x: 0, y: 0, extent }
    }

    /// The rectangle at the origin that covers `extent`.
    pub fn from_extent(extent: Extent2D) -> (rect: Rect2D)
        ensures
            rect == Rect2D::covering(extent),
    {
        Rect2D { x: 0, y: 0, extent }
    }
}

/// One call into the driver that takes effect at once, with its arguments.
#[derive(Debug, Copy, Clone, PartialEq, Eq, Structural)]
pub enum DriverCall {
    WaitForFences { fence: u64, wait_all: bool, timeout: u64 },
    ResetFences { fence: u64 },
    DestroyFence { fence: u64 },
    DestroySemaphore { semaphore: u64 },
    ResetCommandBuffer { command_buffer: u64, flags: u32 },
    BeginCommandBuffer { command_buffer: u64, flags: u32 },
    EndCommandBuffer { command_buffer: u64 },
    DeviceWaitIdle,
    DestroyCommandPool { command_pool: u64 },
    DestroyDevice,
    DestroyImage { image: u64 },
    DestroyImageView { view: u64 },
    FreeMemory { memory: u64 },
    DestroyBuffer { buffer: u64 },
    DestroySampler { sampler: u64 },
    DestroySwapchain { swapchain: u64 },
    DestroySurface { surface: u64 },
    DestroyFramebuffer { framebuffer: u64 },
    DestroyRenderPass { render_pass: u64 },
    DestroyPipeline { pipeline: u64 },
    DestroyPipelineLayout { layout: u64 },
    DestroyShaderModule { module: u64 },
    DestroyDebugMessenger { messenger: u64 },
    DestroyInstance,
}

/// The failure of one call of a sequence: its place in the sequence and the
/// driver's result code.
#[derive(Debug, Copy, Clone, PartialEq, Eq, Structural)]
pub struct CallFailure {
    pub index: usize,
    pub code: i32,
}

/// The calls of `calls` that were made, given how they went: all of them
/// after a success, else those up to the one that failed, that one among
/// them. An index beyond the last call counts as the last.
pub open spec fn performed(calls: Seq<DriverCall>, outcome: Result<(), CallFailure>) -> Seq<
    DriverCall,
> {
    match outcome {
        Ok(_) => calls,
        Err(failure) => if failure.index < calls.len() {
            calls.take(failure.index + 1)
        } else {
            calls
        },
    }
}

} // verus!
