//! The resources that commands read and write: images, buffers, samplers.
pub mod buffer;
pub mod image;
pub mod sampler;

pub use self::buffer::{Buffer, BufferCreationError, BufferType, MemoryCopyError};
pub use self::image::{Image, ImageCreationError, ImageLayout, ImageResolution, ImageType};
pub use self::sampler::{Sampler, SamplerFilter, SamplerWrapMode};
