//! Images, and the layout that each one was last moved to.
use crate::command::{views_of, Command, CommandView};
use crate::context::{Context, ContextState};
use crate::device::Device;
use crate::driver::{CallFailure, DriverCall, Extent2D, Extent3D};
use crate::pipeline::PipelineStages;
use crate::resources::buffer::Buffer;
use crate::sync::fence::{Fence, FenceState};
use crate::sync::memory_barrier::{AccessMask, ACCESS_SHADER_READ, ACCESS_TRANSFER_WRITE};
use crate::error::Error;
use crate::sync::memory_barrier::ImageMemoryBarrier;
use crate::mem::{
    find_memory_type_index, MemoryRequirements, PhysicalDeviceMemoryProperties, MAX_MEMORY_TYPES,
    MEMORY_PROPERTY_DEVICE_LOCAL,
};
use vstd::prelude::*;
use vstd::std_specs::convert::FromSpecImpl;

verus! {

/// The driver's number for a two-dimensional image.
pub const IMAGE_TYPE_2D: i32 = 1;

/// The driver's number for a two-dimensional image view.
pub const IMAGE_VIEW_TYPE_2D: i32 = 1;

/// The driver's number for one sample per pixel.
pub const SAMPLE_COUNT_1: u32 = 0x1;

/// The driver's number for the tiling that it lays out itself.
pub const IMAGE_TILING_OPTIMAL: i32 = 0;

/// The driver's number for a resource that one queue family owns.
pub const SHARING_MODE_EXCLUSIVE: i32 = 0;

/// The driver's number for four normalised 8-bit channels.
pub const FORMAT_R8G8B8A8_UNORM: i32 = 37;

/// The driver's number for one normalised 16-bit depth channel.
pub const FORMAT_D16_UNORM: i32 = 124;

/// An image that transfers write to.
pub const IMAGE_USAGE_TRANSFER_DST: u32 = 0x2;

/// An image that shaders sample.
pub const IMAGE_USAGE_SAMPLED: u32 = 0x4;

/// An image that is drawn to as colour.
pub const IMAGE_USAGE_COLOR_ATTACHMENT: u32 = 0x10;

/// An image that is drawn to as depth.
pub const IMAGE_USAGE_DEPTH_STENCIL_ATTACHMENT: u32 = 0x20;

/// The colour aspect of an image.
pub const IMAGE_ASPECT_COLOR: u32 = 0x1;

/// The depth aspect of an image.
pub const IMAGE_ASPECT_DEPTH: u32 = 0x2;

/// Why an image could not be made.
#[derive(Debug, Copy, Clone, PartialEq, Eq, Structural)]
pub enum ImageCreationError {
    /// No memory type of the device serves the image.
    CouldNotFindMemoryIndex,
}

impl ImageCreationError {
    /// The error in words.
    pub fn message(&self) -> (message: String)
        ensures
            message@ == "could not find memory index for image"@,
    {
        match self {
            ImageCreationError::CouldNotFindMemoryIndex => {
                "could not find memory index for image".to_owned()
            },
        }
    }
}

/// The layout that an image is in: the tag that the caller tracks and hands
/// to each barrier.
#[derive(Debug, Copy, Clone, PartialEq, Eq, Structural)]
pub enum ImageLayout {
    /// The contents are undefined, as right after creation.
    Undefined,
    /// Written as a depth attachment.
    DepthStencil,
    /// Written by transfers.
    TransferDest,
    /// Read by shaders.
    ShaderReadOnly,
    /// Written as a colour attachment.
    ColorAttachment,
    /// Handed to the presentation engine.
    PresentSrc,
}

impl ImageLayout {
    /// The driver's number for the layout.
    pub open spec fn spec_raw(self) -> i32 {
        match self {
            ImageLayout::Undefined => 0,
            ImageLayout::DepthStencil => 3,
            ImageLayout::TransferDest => 7,
            ImageLayout::ShaderReadOnly => 5,
            ImageLayout::ColorAttachment => 2,
            ImageLayout::PresentSrc => 1_000_001_002,
        }
    }

    /// The driver's number for the layout.
    #[verifier::when_used_as_spec(spec_raw)]
    pub fn raw(self) -> (raw: i32)
        ensures
            raw == self.spec_raw(),
    {
        match self {
            ImageLayout::Undefined => 0,
            ImageLayout::DepthStencil => 3,
            ImageLayout::TransferDest => 7,
            ImageLayout::ShaderReadOnly => 5,
            ImageLayout::ColorAttachment => 2,
            ImageLayout::PresentSrc => 1_000_001_002,
        }
    }
}

/// The size of an image.
#[derive(Debug, Copy, Clone, PartialEq, Eq, Structural)]
pub struct ImageResolution {
    pub width: u32,
    pub height: u32,
    pub depth: u32,
}

impl ImageResolution {
    /// The size of a flat image: its depth is one.
    pub fn from_width_height(width: u32, height: u32) -> (resolution: ImageResolution)
        ensures
            resolution == (ImageResolution { width, height, depth: 1 }),
    {
        Self { width, height, depth: 1 }
    }
}

impl From<ImageResolution> for Extent3D {
    fn from(resolution: ImageResolution) -> (extent: Extent3D) {
        Extent3D { width: resolution.width, height: resolution.height, depth: resolution.depth }
    }
}

impl FromSpecImpl<ImageResolution> for Extent3D {
    open spec fn obeys_from_spec() -> bool {
        true
    }

    open spec fn from_spec(resolution: ImageResolution) -> Extent3D {
        Extent3D { width: resolution.width, height: resolution.height, depth: resolution.depth }
    }
}

impl From<Extent2D> for ImageResolution {
    fn from(extent: Extent2D) -> (resolution: ImageResolution) {
        ImageResolution { width: extent.width, height: extent.height, depth: 1 }
    }
}

impl FromSpecImpl<Extent2D> for ImageResolution {
    open spec fn obeys_from_spec() -> bool {
        true
    }

    open spec fn from_spec(extent: Extent2D) -> ImageResolution {
        ImageResolution { width: extent.width, height: extent.height, depth: 1 }
    }
}

/// What an image holds.
#[derive(Debug, Copy, Clone, PartialEq, Eq, Structural)]
pub enum ImageType {
    Color,
    Depth,
}

impl ImageType {
    /// The driver's number for the format of such an image.
    pub open spec fn spec_format(&self) -> i32 {
        match self {
            ImageType::Color => FORMAT_R8G8B8A8_UNORM,
            ImageType::Depth => FORMAT_D16_UNORM,
        }
    }

    /// What such an image is used for: a colour image is written by transfers
    /// and sampled, a depth image is a depth attachment.
    pub open spec fn spec_usage(&self) -> u32 {
        match self {
            ImageType::Color => 0x6,
            ImageType::Depth => IMAGE_USAGE_DEPTH_STENCIL_ATTACHMENT,
        }
    }

    /// The aspect of such an image that views and barriers name.
    pub open spec fn spec_aspect_mask(&self) -> u32 {
        match self {
            ImageType::Color => IMAGE_ASPECT_COLOR,
            ImageType::Depth => IMAGE_ASPECT_DEPTH,
        }
    }

    /// The driver's number for the format of such an image.
    #[verifier::when_used_as_spec(spec_format)]
    pub fn format(&self) -> (format: i32)
        ensures
            format == self.spec_format(),
    {
        match self {
            ImageType::Color => FORMAT_R8G8B8A8_UNORM,
            ImageType::Depth => FORMAT_D16_UNORM,
        }
    }

    /// The usage flags of such an image.
    #[verifier::when_used_as_spec(spec_usage)]
    pub fn usage(&self) -> (usage: u32)
        ensures
            usage == self.spec_usage(),
            self == ImageType::Color ==> usage == IMAGE_USAGE_TRANSFER_DST | IMAGE_USAGE_SAMPLED,
    {
        assert(0x2u32 | 0x4u32 == 0x6u32) by (bit_vector);
        match self {
            ImageType::Color => IMAGE_USAGE_TRANSFER_DST | IMAGE_USAGE_SAMPLED,
            ImageType::Depth => IMAGE_USAGE_DEPTH_STENCIL_ATTACHMENT,
        }
    }

    /// The aspect of such an image that views and barriers name.
    #[verifier::when_used_as_spec(spec_aspect_mask)]
    pub fn aspect_mask(&self) -> (aspect: u32)
        ensures
            aspect == self.spec_aspect_mask(),
    {
        match self {
            ImageType::Color => IMAGE_ASPECT_COLOR,
            ImageType::Depth => IMAGE_ASPECT_DEPTH,
        }
    }
}

/// The part of an image that a view or a barrier covers.
#[derive(Debug, Copy, Clone, PartialEq, Eq, Structural)]
pub struct ImageSubresourceRange {
    pub aspect_mask: u32,
    pub base_mip_level: u32,
    pub level_count: u32,
    pub base_array_layer: u32,
    pub layer_count: u32,
}

impl ImageSubresourceRange {
    /// The one level and one layer that every image of this library has, in
    /// the aspect `aspect_mask`.
    pub open spec fn whole(aspect_mask: u32) -> ImageSubresourceRange {
        ImageSubresourceRange {
            aspect_mask,
            base_mip_level: 0,
            level_count: 1,
            base_array_layer: 0,
            layer_count: 1,
        }
    }

    /// The one level and one layer that every image of this library has, in
    /// the aspect `aspect_mask`.
    pub fn single(aspect_mask: u32) -> (range: ImageSubresourceRange)
        ensures
            range == ImageSubresourceRange::whole(aspect_mask),
    {
        ImageSubresourceRange {
            aspect_mask,
            base_mip_level: 0,
            level_count: 1,
            base_array_layer: 0,
            layer_count: 1,
        }
    }
}

/// What the driver is asked to create an image with.
#[derive(Debug, Copy, Clone, PartialEq, Eq, Structural)]
pub struct ImageCreateInfo {
    pub image_type: i32,
    pub format: i32,
    pub extent: Extent3D,
    pub mip_levels: u32,
    pub array_layers: u32,
    pub samples: u32,
    pub tiling: i32,
    pub usage: u32,
    pub sharing_mode: i32,
}

/// What the driver is asked to allocate memory with.
#[derive(Debug, Copy, Clone, PartialEq, Eq, Structural)]
pub struct MemoryAllocateInfo {
    pub allocation_size: u64,
    pub memory_type_index: u32,
}

/// How the four channels of a view are taken from those of its image.
#[derive(Debug, Copy, Clone, PartialEq, Eq, Structural)]
pub enum ComponentMapping {
    /// Each channel is the image's own, by the driver's default.
    Identity,
    /// Each channel is named: red from red, green from green, blue from blue,
    /// alpha from alpha.
    Rgba,
}

/// What the driver is asked to create an image view with.
#[derive(Debug, Copy, Clone, PartialEq, Eq, Structural)]
pub struct ImageViewCreateInfo {
    pub image: u64,
    pub view_type: i32,
    pub format: i32,
    pub components: ComponentMapping,
    pub subresource_range: ImageSubresourceRange,
}

/// An image with its memory and its view, and the layout that it was last
/// moved to.
#[derive(Debug, PartialEq, Eq)]
pub struct Image {
    pub image: u64,
    pub memory: u64,
    pub view: u64,
    pub ty: ImageType,
    pub layout: ImageLayout,
}

impl Image {
    /// What the driver is asked to create the image with: a flat image of one
    /// level, one layer and one sample, in the format and for the use of `ty`.
    pub open spec fn spec_create_info(
        resolution: ImageResolution,
        ty: ImageType,
    ) -> ImageCreateInfo {
        ImageCreateInfo {
            image_type: IMAGE_TYPE_2D,
            format: ty.spec_format(),
            extent: Extent3D {
                width: resolution.width,
                height: resolution.height,
                depth: resolution.depth,
            },
            mip_levels: 1,
            array_layers: 1,
            samples: SAMPLE_COUNT_1,
            tiling: IMAGE_TILING_OPTIMAL,
            usage: ty.spec_usage(),
            sharing_mode: SHARING_MODE_EXCLUSIVE,
        }
    }

    /// What the driver is asked to create the image with.
    pub fn create_info(resolution: ImageResolution, ty: ImageType) -> (info: ImageCreateInfo)
        ensures
            info == Image::spec_create_info(resolution, ty),
    {
        ImageCreateInfo {
            image_type: IMAGE_TYPE_2D,
            format: ty.format(),
            extent: Extent3D::from(resolution),
            mip_levels: 1,
            array_layers: 1,
            samples: SAMPLE_COUNT_1,
            tiling: IMAGE_TILING_OPTIMAL,
            usage: ty.usage(),
            sharing_mode: SHARING_MODE_EXCLUSIVE,
        }
    }

    /// The memory to allocate for an image with the requirements
    /// `requirements`: as much as it asks for, of the first device-local
    /// memory type that it accepts. Fails where the device has none.
    pub fn allocate_info(
        requirements: &MemoryRequirements,
        memory_properties: &PhysicalDeviceMemoryProperties,
    ) -> (info: Result<MemoryAllocateInfo, Error>)
        requires
            memory_properties.memory_types@.len() <= MAX_MEMORY_TYPES,
        ensures
            match info {
                Ok(info) => {
                    &&& info.allocation_size == requirements.size
                    &&& crate::mem::memory_type_suits(
                        requirements.memory_type_bits,
                        memory_properties.memory_types@,
                        MEMORY_PROPERTY_DEVICE_LOCAL,
                        info.memory_type_index as int,
                    )
                    &&& forall|j: int|
                        0 <= j < info.memory_type_index ==> !crate::mem::memory_type_suits(
                            requirements.memory_type_bits,
                            memory_properties.memory_types@,
                            MEMORY_PROPERTY_DEVICE_LOCAL,
                            j,
                        )
                },
                Err(e) => {
                    &&& e == Error::ImageCreation(ImageCreationError::CouldNotFindMemoryIndex)
                    &&& forall|j: int|
                        !crate::mem::memory_type_suits(
                            requirements.memory_type_bits,
                            memory_properties.memory_types@,
                            MEMORY_PROPERTY_DEVICE_LOCAL,
                            j,
                        )
                },
            },
    {
        let flags: u32 = MEMORY_PROPERTY_DEVICE_LOCAL;
        match find_memory_type_index(requirements, memory_properties, flags) {
            Some(index) => Ok(
                MemoryAllocateInfo { allocation_size: requirements.size, memory_type_index: index },
            ),
            None => Err(Error::ImageCreation(ImageCreationError::CouldNotFindMemoryIndex)),
        }
    }

    /// What the driver is asked to create the image's view with: a flat view
    /// of the whole image, in the format and the aspect of `ty`.
    pub open spec fn spec_view_info(image: u64, ty: ImageType) -> ImageViewCreateInfo {
        ImageViewCreateInfo {
            image,
            view_type: IMAGE_VIEW_TYPE_2D,
            format: ty.spec_format(),
            components: ComponentMapping::Identity,
            subresource_range: ImageSubresourceRange::whole(ty.spec_aspect_mask()),
        }
    }

    /// What the driver is asked to create the image's view with.
    pub fn view_info(image: u64, ty: ImageType) -> (info: ImageViewCreateInfo)
        ensures
            info == Image::spec_view_info(image, ty),
    {
        ImageViewCreateInfo {
            image,
            view_type: IMAGE_VIEW_TYPE_2D,
            format: ty.format(),
            components: ComponentMapping::Identity,
            subresource_range: ImageSubresourceRange::single(ty.aspect_mask()),
        }
    }

    /// The image made of what the driver created. A new image is in the
    /// undefined layout.
    pub fn new(image: u64, memory: u64, view: u64, ty: ImageType) -> (made: Image)
        ensures
            made.image == image,
            made.memory == memory,
            made.view == view,
            made.ty == ty,
            made.layout == ImageLayout::Undefined,
    {
        Image { image, memory, view, ty, layout: ImageLayout::Undefined }
    }

    /// Notes that `barrier` was recorded for the image: from now on the
    /// image counts as being in the barrier's new layout.
    ///
    /// The barrier must be one of this image that applies to the layout that
    /// the image is in.
    pub fn transition(&mut self, barrier: &ImageMemoryBarrier)
        requires
            barrier.image == old(self).image,
            barrier.applies_to(old(self).layout),
        ensures
            *final(self) == (Image { layout: barrier.new_layout, ..*old(self) }),
            Some(final(self).layout) == crate::sync::memory_barrier::layout_after(
                old(self).layout,
                old(self).image,
                seq![*barrier],
            ),
    {
        assert(seq![*barrier].drop_last() =~= Seq::<ImageMemoryBarrier>::empty());
        assert(crate::sync::memory_barrier::layout_after(
            self.layout,
            self.image,
            Seq::<ImageMemoryBarrier>::empty(),
        ) == Some(self.layout));
        self.layout = barrier.new_layout;
    }

    /// The size in bytes of the staging buffer for an image of `width` by
    /// `height` pixels of four bytes each.
    pub fn staging_size(width: u32, height: u32) -> (size: u64)
        requires
            width * height * 4 <= u32::MAX,
        ensures
            size == width * height * 4,
    {
        assert(width * height <= width * height * 4) by (nonlinear_arith);
        let pixels: u32 = width * height;
        let bytes: u32 = pixels * 4;
        bytes as u64
    }

    /// The first barrier of an upload: the image is given up as it is and
    /// readied for the writes of a transfer.
    pub open spec fn upload_barrier(image: Image) -> ImageMemoryBarrier {
        ImageMemoryBarrier::describe(
            image,
            AccessMask::Transfer,
            ImageLayout::Undefined,
            ImageLayout::TransferDest,
        )
    }

    /// The last barrier of an upload: once the transfer has written the
    /// colour of the image, it is readied for the reads of shaders.
    pub open spec fn sample_barrier(image: Image) -> ImageMemoryBarrier {
        ImageMemoryBarrier {
            image: image.image,
            src_access_mask: ACCESS_TRANSFER_WRITE,
            dst_access_mask: ACCESS_SHADER_READ,
            old_layout: ImageLayout::TransferDest,
            new_layout: ImageLayout::ShaderReadOnly,
            subresource_range: ImageSubresourceRange::whole(IMAGE_ASPECT_COLOR),
        }
    }

    /// The three commands of an upload, in order.
    pub open spec fn upload_commands(image: Image, buffer: u64, extent: Extent2D) -> Seq<
        CommandView,
    > {
        seq![
            CommandView::PipelineBarrier {
                src_stage: PipelineStages::BottomOfPipe.mask(),
                dst_stage: PipelineStages::Transfer.mask(),
                dependency_flags: 0,
                image_barriers: seq![Image::upload_barrier(image)],
            },
            CommandView::CopyBufferToImage {
                buffer,
                image: image.image,
                image_layout: ImageLayout::TransferDest,
                aspect_mask: IMAGE_ASPECT_COLOR,
                layer_count: 1,
                image_extent: Extent3D { width: extent.width, height: extent.height, depth: 1 },
            },
            CommandView::PipelineBarrier {
                src_stage: PipelineStages::Transfer.mask(),
                dst_stage: PipelineStages::FragmentShader.mask(),
                dependency_flags: 0,
                image_barriers: seq![Image::sample_barrier(image)],
            },
        ]
    }

    /// The commands that fill `image` from `image_buffer`: a barrier that
    /// moves the image to the transfer layout, the copy of the buffer into
    /// the image over `image_extent`, and a barrier that moves the image on
    /// to the layout that shaders read. The image counts as being in that
    /// last layout from now on.
    pub fn image_create_commands(
        image: &mut Image,
        image_buffer: &Buffer,
        image_extent: Extent2D,
    ) -> (body: Vec<Command>)
        ensures
            views_of(body@) == Image::upload_commands(
                *old(image),
                image_buffer.buffer,
                image_extent,
            ),
            *final(image) == (Image { layout: ImageLayout::ShaderReadOnly, ..*old(image) }),
    {
        let first = ImageMemoryBarrier::new(
            image,
            AccessMask::Transfer,
            ImageLayout::Undefined,
            ImageLayout::TransferDest,
        );
        image.transition(&first);
        let first_barriers = vec![first];
        assert(first_barriers@ =~= seq![Image::upload_barrier(*old(image))]);
        let last = ImageMemoryBarrier {
            image: image.image,
            src_access_mask: ACCESS_TRANSFER_WRITE,
            dst_access_mask: ACCESS_SHADER_READ,
            old_layout: ImageLayout::TransferDest,
            new_layout: ImageLayout::ShaderReadOnly,
            subresource_range: ImageSubresourceRange::single(IMAGE_ASPECT_COLOR),
        };
        image.transition(&last);
        let last_barriers = vec![last];
        assert(last_barriers@ =~= seq![Image::sample_barrier(*old(image))]);
        let body = vec![
            Command::PipelineBarrier {
                src_stage: PipelineStages::BottomOfPipe.bits(),
                dst_stage: PipelineStages::Transfer.bits(),
                dependency_flags: 0,
                image_barriers: first_barriers,
            },
            Command::CopyBufferToImage {
                buffer: image_buffer.buffer,
                image: image.image,
                image_layout: ImageLayout::TransferDest,
                aspect_mask: IMAGE_ASPECT_COLOR,
                layer_count: 1,
                image_extent: Extent3D {
                    width: image_extent.width,
                    height: image_extent.height,
                    depth: 1,
                },
            },
            Command::PipelineBarrier {
                src_stage: PipelineStages::Transfer.bits(),
                dst_stage: PipelineStages::FragmentShader.bits(),
                dependency_flags: 0,
                image_barriers: last_barriers,
            },
        ];
        assert(views_of(body@) =~= Image::upload_commands(
            *old(image),
            image_buffer.buffer,
            image_extent,
        ));
        body
    }

    /// Fills the new image `image` of `width` by `height` pixels from its
    /// staging buffer `image_buffer`, and hands both back.
    ///
    /// With `record` set, the upload is a recording of its own, submitted at
    /// once with `fence`: `outcome` is the outcome of the calls of the
    /// device's `record_and_submit`, and a failure is handed on. Without it,
    /// the commands join the recording that `context` is in, and `outcome`
    /// is not looked at.
    ///
    /// With `record` set, what the context's `begin` asks is asked here too;
    /// without it, the context must be recording.
    pub fn from_data_and_dims(
        device: &Device,
        context: &mut Context,
        fence: &mut Fence,
        image: Image,
        image_buffer: Buffer,
        width: u32,
        height: u32,
        record: bool,
        outcome: Result<(), CallFailure>,
    ) -> (made: Result<(Image, Buffer), Error>)
        requires
            record ==> old(context).may_begin(old(fence)),
            !record ==> old(context).state == ContextState::Recording,
        ensures
            final(context).command_buffer == old(context).command_buffer,
            final(fence).fence == old(fence).fence,
            final(context).state != ContextState::Recording || !record,
            made matches Ok(pair) ==> {
                &&& pair.0 == (Image { layout: ImageLayout::ShaderReadOnly, ..image })
                &&& pair.1 == image_buffer
            },
            !record ==> {
                &&& made is Ok
                &&& final(context).state == ContextState::Recording
                &&& views_of(final(context).commands@) == views_of(
                    old(context).commands@,
                ) + Image::upload_commands(image, image_buffer.buffer, Extent2D { width, height })
                &&& final(context).fence == old(context).fence
                &&& *final(fence) == *old(fence)
            },
            record ==> match outcome {
                Ok(_) => {
                    &&& made is Ok
                    &&& final(context).state == ContextState::Pending
                    &&& final(context).fence == old(fence).fence
                    &&& final(fence).state == FenceState::InFlight
                    &&& views_of(final(context).commands@) == Image::upload_commands(
                        image,
                        image_buffer.buffer,
                        Extent2D { width, height },
                    )
                },
                Err(failure) => {
                    &&& made matches Err(e)
                    &&& e == (Error::Driver { code: failure.code })
                    &&& Device::record_and_submit_failed(
                        old(context),
                        old(fence),
                        final(context),
                        final(fence),
                        Image::upload_commands(
                            image,
                            image_buffer.buffer,
                            Extent2D { width, height },
                        ),
                        failure.index,
                    )
                },
            },
    {
        let mut image = image;
        let image_extent = Extent2D { width, height };
        let body = Image::image_create_commands(&mut image, &image_buffer, image_extent);
        if record {
            match device.record_and_submit(context, fence, body, outcome) {
                Err(e) => {
                    return Err(e);
                },
                Ok(_) => {},
            }
        } else {
            let ghost before = context.commands@;
            let ghost added = body@;
            context.extend(body);
            assert(views_of(before + added) =~= views_of(before)
                + views_of(added));
        }
        Ok((image, image_buffer))
    }

    /// Gives the image up: the calls that destroy the image, then its view,
    /// then free its memory.
    pub fn clean(&self) -> (calls: Vec<DriverCall>)
        ensures
            calls@ == seq![
                DriverCall::DestroyImage { image: self.image },
                DriverCall::DestroyImageView { view: self.view },
                DriverCall::FreeMemory { memory: self.memory },
            ],
    {
        let calls = vec![
            DriverCall::DestroyImage { image: self.image },
            DriverCall::DestroyImageView { view: self.view },
            DriverCall::FreeMemory { memory: self.memory },
        ];
        calls
    }
}

} // verus!
