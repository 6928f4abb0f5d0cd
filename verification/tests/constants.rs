use ash::vk;
use easy_ash::command::{INDEX_TYPE_UINT32, PIPELINE_BIND_POINT_GRAPHICS, SUBPASS_CONTENTS_INLINE};
use easy_ash::descriptors::{
    DescriptorBufferInfo, DescriptorType, ShaderStage, DESCRIPTOR_POOL_CREATE_UPDATE_AFTER_BIND,
    DESCRIPTOR_TYPE_COMBINED_IMAGE_SAMPLER,
};
use easy_ash::device::QUEUE_GRAPHICS;
use easy_ash::driver::{
    COMMAND_BUFFER_LEVEL_PRIMARY, COMMAND_BUFFER_RESET_RELEASE_RESOURCES,
    COMMAND_BUFFER_USAGE_ONE_TIME_SUBMIT, COMMAND_POOL_CREATE_RESET_COMMAND_BUFFER,
    ERROR_OUT_OF_DATE, FENCE_CREATE_SIGNALED, NO_TIMEOUT, NULL_HANDLE,
};
use easy_ash::entry::debug::DebugUtils;
use easy_ash::mem::{
    MEMORY_PROPERTY_DEVICE_LOCAL, MEMORY_PROPERTY_HOST_COHERENT, MEMORY_PROPERTY_HOST_VISIBLE,
};
use easy_ash::pipeline::graphics_pipeline::{
    BLEND_FACTOR_ONE, BLEND_FACTOR_ONE_MINUS_SRC_ALPHA, COLOR_COMPONENT_RGBA, COMPARE_OP_ALWAYS,
    CULL_MODE_BACK, CULL_MODE_NONE, DYNAMIC_STATE_SCISSOR, DYNAMIC_STATE_VIEWPORT,
    FRONT_FACE_COUNTER_CLOCKWISE, POLYGON_MODE_FILL, PRIMITIVE_TOPOLOGY_TRIANGLE_LIST,
    STENCIL_OP_KEEP,
};
use easy_ash::pipeline::PipelineStages;
use easy_ash::render_pass::{ATTACHMENT_LOAD_OP_CLEAR, ATTACHMENT_STORE_OP_STORE};
use easy_ash::resources::buffer::{Buffer, BufferType};
use easy_ash::resources::image::{
    ImageLayout, ImageType, IMAGE_TILING_OPTIMAL, IMAGE_TYPE_2D, IMAGE_USAGE_COLOR_ATTACHMENT,
    IMAGE_VIEW_TYPE_2D, SAMPLE_COUNT_1, SHARING_MODE_EXCLUSIVE,
};
use easy_ash::resources::sampler::{SamplerFilter, SamplerWrapMode, SAMPLER_MIPMAP_MODE_LINEAR};
use easy_ash::surface::EXTENT_UNDEFINED;
use easy_ash::swapchain::{
    COMPOSITE_ALPHA_OPAQUE, PRESENT_MODE_FIFO, PRESENT_MODE_MAILBOX, SURFACE_TRANSFORM_IDENTITY,
};
use easy_ash::sync::memory_barrier::AccessMask;

#[test]
fn stage_masks_are_the_drivers() {
    let pairs = [
        (PipelineStages::TopOfPipe, vk::PipelineStageFlags::TOP_OF_PIPE),
        (PipelineStages::DrawIndirect, vk::PipelineStageFlags::DRAW_INDIRECT),
        (PipelineStages::VertexInput, vk::PipelineStageFlags::VERTEX_INPUT),
        (PipelineStages::VertexShader, vk::PipelineStageFlags::VERTEX_SHADER),
        (
            PipelineStages::TesselationControlShader,
            vk::PipelineStageFlags::TESSELLATION_CONTROL_SHADER,
        ),
        (
            PipelineStages::TessalationEvaluationShader,
            vk::PipelineStageFlags::TESSELLATION_EVALUATION_SHADER,
        ),
        (PipelineStages::GeometryShader, vk::PipelineStageFlags::GEOMETRY_SHADER),
        (PipelineStages::FragmentShader, vk::PipelineStageFlags::FRAGMENT_SHADER),
        (PipelineStages::EarlyFragmentTests, vk::PipelineStageFlags::EARLY_FRAGMENT_TESTS),
        (PipelineStages::LateFragmentTests, vk::PipelineStageFlags::LATE_FRAGMENT_TESTS),
        (
            PipelineStages::ColorAttachmentOutput,
            vk::PipelineStageFlags::COLOR_ATTACHMENT_OUTPUT,
        ),
        (PipelineStages::ComputeShader, vk::PipelineStageFlags::COMPUTE_SHADER),
        (PipelineStages::Transfer, vk::PipelineStageFlags::TRANSFER),
        (PipelineStages::BottomOfPipe, vk::PipelineStageFlags::BOTTOM_OF_PIPE),
        (PipelineStages::Host, vk::PipelineStageFlags::HOST),
        (PipelineStages::AllGraphics, vk::PipelineStageFlags::ALL_GRAPHICS),
        (PipelineStages::AllCommands, vk::PipelineStageFlags::ALL_COMMANDS),
    ];
    for (stage, flags) in pairs {
        assert_eq!(stage.bits(), flags.as_raw(), "{:?}", stage);
    }
}

#[test]
fn stage_masks_have_one_bit_each() {
    assert_eq!(PipelineStages::TopOfPipe.bits(), 1);
    assert_eq!(PipelineStages::Transfer.bits(), 1 << 12);
    assert_eq!(PipelineStages::AllCommands.bits(), 1 << 16);
    assert_eq!(PipelineStages::LateFragmentTests.bits().count_ones(), 1);
}

#[test]
fn access_masks_are_the_drivers() {
    assert_eq!(
        AccessMask::DepthStencil.bits(),
        (vk::AccessFlags::DEPTH_STENCIL_ATTACHMENT_READ
            | vk::AccessFlags::DEPTH_STENCIL_ATTACHMENT_WRITE)
            .as_raw()
    );
    assert_eq!(AccessMask::DepthStencil.bits(), 0x600);
    assert_eq!(AccessMask::Transfer.bits(), vk::AccessFlags::TRANSFER_WRITE.as_raw());
    assert_eq!(AccessMask::ShaderRead.bits(), vk::AccessFlags::SHADER_READ.as_raw());
}

#[test]
fn image_layouts_are_the_drivers() {
    assert_eq!(ImageLayout::Undefined.raw(), vk::ImageLayout::UNDEFINED.as_raw());
    assert_eq!(
        ImageLayout::DepthStencil.raw(),
        vk::ImageLayout::DEPTH_STENCIL_ATTACHMENT_OPTIMAL.as_raw()
    );
    assert_eq!(ImageLayout::TransferDest.raw(), vk::ImageLayout::TRANSFER_DST_OPTIMAL.as_raw());
    assert_eq!(
        ImageLayout::ShaderReadOnly.raw(),
        vk::ImageLayout::SHADER_READ_ONLY_OPTIMAL.as_raw()
    );
    assert_eq!(
        ImageLayout::ColorAttachment.raw(),
        vk::ImageLayout::COLOR_ATTACHMENT_OPTIMAL.as_raw()
    );
    assert_eq!(ImageLayout::PresentSrc.raw(), vk::ImageLayout::PRESENT_SRC_KHR.as_raw());
}

#[test]
fn image_types_are_the_drivers() {
    assert_eq!(ImageType::Color.format(), vk::Format::R8G8B8A8_UNORM.as_raw());
    assert_eq!(ImageType::Depth.format(), vk::Format::D16_UNORM.as_raw());
    assert_eq!(
        ImageType::Color.usage(),
        (vk::ImageUsageFlags::TRANSFER_DST | vk::ImageUsageFlags::SAMPLED).as_raw()
    );
    assert_eq!(
        ImageType::Depth.usage(),
        vk::ImageUsageFlags::DEPTH_STENCIL_ATTACHMENT.as_raw()
    );
    assert_eq!(ImageType::Color.aspect_mask(), vk::ImageAspectFlags::COLOR.as_raw());
    assert_eq!(ImageType::Depth.aspect_mask(), vk::ImageAspectFlags::DEPTH.as_raw());
    assert_eq!(IMAGE_TYPE_2D, vk::ImageType::TYPE_2D.as_raw());
    assert_eq!(IMAGE_VIEW_TYPE_2D, vk::ImageViewType::TYPE_2D.as_raw());
    assert_eq!(SAMPLE_COUNT_1, vk::SampleCountFlags::TYPE_1.as_raw());
    assert_eq!(IMAGE_TILING_OPTIMAL, vk::ImageTiling::OPTIMAL.as_raw());
    assert_eq!(SHARING_MODE_EXCLUSIVE, vk::SharingMode::EXCLUSIVE.as_raw());
    assert_eq!(IMAGE_USAGE_COLOR_ATTACHMENT, vk::ImageUsageFlags::COLOR_ATTACHMENT.as_raw());
}

#[test]
fn buffer_numbers_are_the_drivers() {
    assert_eq!(BufferType::Index.usage(), vk::BufferUsageFlags::INDEX_BUFFER.as_raw());
    assert_eq!(BufferType::Storage.usage(), vk::BufferUsageFlags::STORAGE_BUFFER.as_raw());
    assert_eq!(BufferType::Staging.usage(), vk::BufferUsageFlags::TRANSFER_SRC.as_raw());
    assert_eq!(
        Buffer::memory_flags(),
        (vk::MemoryPropertyFlags::HOST_VISIBLE | vk::MemoryPropertyFlags::HOST_COHERENT).as_raw()
    );
    assert_eq!(MEMORY_PROPERTY_DEVICE_LOCAL, vk::MemoryPropertyFlags::DEVICE_LOCAL.as_raw());
    assert_eq!(MEMORY_PROPERTY_HOST_VISIBLE, vk::MemoryPropertyFlags::HOST_VISIBLE.as_raw());
    assert_eq!(MEMORY_PROPERTY_HOST_COHERENT, vk::MemoryPropertyFlags::HOST_COHERENT.as_raw());
}

#[test]
fn sampler_numbers_are_the_drivers() {
    assert_eq!(SamplerFilter::Linear.raw(), vk::Filter::LINEAR.as_raw());
    assert_eq!(SamplerFilter::Nearest.raw(), vk::Filter::NEAREST.as_raw());
    assert_eq!(SamplerWrapMode::Tile.raw(), vk::SamplerAddressMode::REPEAT.as_raw());
    assert_eq!(SamplerWrapMode::Clamp.raw(), vk::SamplerAddressMode::CLAMP_TO_EDGE.as_raw());
    assert_eq!(SamplerWrapMode::Mirror.raw(), vk::SamplerAddressMode::MIRRORED_REPEAT.as_raw());
    assert_eq!(SamplerWrapMode::Border.raw(), vk::SamplerAddressMode::CLAMP_TO_BORDER.as_raw());
    assert_eq!(SAMPLER_MIPMAP_MODE_LINEAR, vk::SamplerMipmapMode::LINEAR.as_raw());
}

#[test]
fn descriptor_numbers_are_the_drivers() {
    let info = DescriptorBufferInfo { buffer: 1, offset: 0, range: 4 };
    assert_eq!(
        DescriptorType::StorageBuffer(info).raw(),
        vk::DescriptorType::STORAGE_BUFFER.as_raw()
    );
    assert_eq!(
        DescriptorType::UniformBuffer(info).raw(),
        vk::DescriptorType::UNIFORM_BUFFER.as_raw()
    );
    assert_eq!(
        DESCRIPTOR_TYPE_COMBINED_IMAGE_SAMPLER,
        vk::DescriptorType::COMBINED_IMAGE_SAMPLER.as_raw()
    );
    assert_eq!(ShaderStage::Vertex.bits(), vk::ShaderStageFlags::VERTEX.as_raw());
    assert_eq!(ShaderStage::Fragment.bits(), vk::ShaderStageFlags::FRAGMENT.as_raw());
    assert_eq!(
        DESCRIPTOR_POOL_CREATE_UPDATE_AFTER_BIND,
        vk::DescriptorPoolCreateFlags::UPDATE_AFTER_BIND_EXT.as_raw()
    );
}

#[test]
fn command_and_queue_numbers_are_the_drivers() {
    assert_eq!(FENCE_CREATE_SIGNALED, vk::FenceCreateFlags::SIGNALED.as_raw());
    assert_eq!(
        COMMAND_BUFFER_RESET_RELEASE_RESOURCES,
        vk::CommandBufferResetFlags::RELEASE_RESOURCES.as_raw()
    );
    assert_eq!(
        COMMAND_BUFFER_USAGE_ONE_TIME_SUBMIT,
        vk::CommandBufferUsageFlags::ONE_TIME_SUBMIT.as_raw()
    );
    assert_eq!(
        COMMAND_POOL_CREATE_RESET_COMMAND_BUFFER,
        vk::CommandPoolCreateFlags::RESET_COMMAND_BUFFER.as_raw()
    );
    assert_eq!(COMMAND_BUFFER_LEVEL_PRIMARY, vk::CommandBufferLevel::PRIMARY.as_raw());
    assert_eq!(QUEUE_GRAPHICS, vk::QueueFlags::GRAPHICS.as_raw());
    assert_eq!(INDEX_TYPE_UINT32, vk::IndexType::UINT32.as_raw());
    assert_eq!(PIPELINE_BIND_POINT_GRAPHICS, vk::PipelineBindPoint::GRAPHICS.as_raw());
    assert_eq!(SUBPASS_CONTENTS_INLINE, vk::SubpassContents::INLINE.as_raw());
    assert_eq!(NO_TIMEOUT, u64::MAX);
    assert_eq!(NULL_HANDLE, 0);
}

#[test]
fn result_codes_are_the_drivers() {
    assert_eq!(ERROR_OUT_OF_DATE, vk::Result::ERROR_OUT_OF_DATE_KHR.as_raw());
}

#[test]
fn swapchain_numbers_are_the_drivers() {
    assert_eq!(SURFACE_TRANSFORM_IDENTITY, vk::SurfaceTransformFlagsKHR::IDENTITY.as_raw());
    assert_eq!(PRESENT_MODE_FIFO, vk::PresentModeKHR::FIFO.as_raw());
    assert_eq!(PRESENT_MODE_MAILBOX, vk::PresentModeKHR::MAILBOX.as_raw());
    assert_eq!(COMPOSITE_ALPHA_OPAQUE, vk::CompositeAlphaFlagsKHR::OPAQUE.as_raw());
    assert_eq!(EXTENT_UNDEFINED, u32::MAX);
}

#[test]
fn render_pass_and_pipeline_numbers_are_the_drivers() {
    assert_eq!(ATTACHMENT_LOAD_OP_CLEAR, vk::AttachmentLoadOp::CLEAR.as_raw());
    assert_eq!(ATTACHMENT_STORE_OP_STORE, vk::AttachmentStoreOp::STORE.as_raw());
    assert_eq!(PRIMITIVE_TOPOLOGY_TRIANGLE_LIST, vk::PrimitiveTopology::TRIANGLE_LIST.as_raw());
    assert_eq!(POLYGON_MODE_FILL, vk::PolygonMode::FILL.as_raw());
    assert_eq!(CULL_MODE_NONE, vk::CullModeFlags::NONE.as_raw());
    assert_eq!(CULL_MODE_BACK, vk::CullModeFlags::BACK.as_raw());
    assert_eq!(FRONT_FACE_COUNTER_CLOCKWISE, vk::FrontFace::COUNTER_CLOCKWISE.as_raw());
    assert_eq!(STENCIL_OP_KEEP, vk::StencilOp::KEEP.as_raw());
    assert_eq!(COMPARE_OP_ALWAYS, vk::CompareOp::ALWAYS.as_raw());
    assert_eq!(
        COLOR_COMPONENT_RGBA,
        (vk::ColorComponentFlags::R
            | vk::ColorComponentFlags::G
            | vk::ColorComponentFlags::B
            | vk::ColorComponentFlags::A)
            .as_raw()
    );
    assert_eq!(BLEND_FACTOR_ONE, vk::BlendFactor::ONE.as_raw());
    assert_eq!(BLEND_FACTOR_ONE_MINUS_SRC_ALPHA, vk::BlendFactor::ONE_MINUS_SRC_ALPHA.as_raw());
    assert_eq!(DYNAMIC_STATE_VIEWPORT, vk::DynamicState::VIEWPORT.as_raw());
    assert_eq!(DYNAMIC_STATE_SCISSOR, vk::DynamicState::SCISSOR.as_raw());
}

#[test]
fn debug_messenger_numbers_are_the_drivers() {
    let info = DebugUtils::create_info();
    assert_eq!(
        info.message_severity,
        (vk::DebugUtilsMessageSeverityFlagsEXT::ERROR
            | vk::DebugUtilsMessageSeverityFlagsEXT::WARNING
            | vk::DebugUtilsMessageSeverityFlagsEXT::INFO)
            .as_raw()
    );
    assert_eq!(
        info.message_type,
        (vk::DebugUtilsMessageTypeFlagsEXT::GENERAL
            | vk::DebugUtilsMessageTypeFlagsEXT::VALIDATION
            | vk::DebugUtilsMessageTypeFlagsEXT::PERFORMANCE)
            .as_raw()
    );
    assert!(DebugUtils::is_error(vk::DebugUtilsMessageSeverityFlagsEXT::ERROR.as_raw()));
    assert!(!DebugUtils::is_error(vk::DebugUtilsMessageSeverityFlagsEXT::WARNING.as_raw()));
    assert!(DebugUtils::is_error(0x1100));
}
