//! The primitives that order the work of the host and of the device.
pub mod fence;
pub mod memory_barrier;
pub mod semaphore;

pub use self::fence::{Fence, FenceState};
pub use self::memory_barrier::{AccessMask, ImageMemoryBarrier};
pub use self::semaphore::{Semaphore, SemaphoreState};
