//! A plain-value model of a Vulkan renderer's command submission and
//! presentation protocol.
//!
//! The library decides *what* is asked of the driver and tracks the state that
//! the driver itself never reports: whether a command context may be recorded
//! into, whether a fence or semaphore is in flight, which swapchain image is
//! held, which layout an image was last moved to. It performs no driver call.
//! Every operation comes in two parts: a function that names the driver calls
//! to make, and a function that takes what the driver answered and moves the
//! tracked state.
pub mod application;
pub mod command;
pub mod context;
pub mod descriptors;
pub mod device;
pub mod driver;
pub mod entry;
pub mod error;
pub mod mem;
pub mod pipeline;
pub mod push_constant;
pub mod render_pass;
pub mod resources;
pub mod shader;
pub mod surface;
pub mod swapchain;
pub mod sync;

pub use crate::application::{ApiVersion, ApplicationInfo};
pub use crate::command::Command;
pub use crate::context::{Context, ContextState};
pub use crate::descriptors::{
    BindingDesc, DescriptorBufferInfo, DescriptorPool, DescriptorSet, DescriptorType, ShaderStage,
};
pub use crate::device::Device;
pub use crate::driver::{CallFailure, DriverCall};
pub use crate::entry::{Entry, InstanceInfo};
pub use crate::error::{Error, Failure};
pub use crate::pipeline::{GraphicsPipeline, PipelineStages};
pub use crate::push_constant::PushConstant;
pub use crate::render_pass::{ClearValue, RenderPass};
pub use crate::resources::{
    Buffer, BufferType, Image, ImageLayout, ImageResolution, ImageType, Sampler, SamplerFilter,
    SamplerWrapMode,
};
pub use crate::shader::{graphics_program::GraphicsProgram, Shader};
pub use crate::surface::Surface;
pub use crate::swapchain::Swapchain;
pub use crate::sync::{AccessMask, Fence, ImageMemoryBarrier, Semaphore};
