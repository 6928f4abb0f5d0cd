//! The commands that a context buffers: instructions that take effect only
//! once the context is submitted and the queue reaches them.
use crate::driver::{Extent2D, Extent3D, Rect2D};
use crate::render_pass::ClearValue;
use crate::resources::image::ImageLayout;
use crate::sync::memory_barrier::ImageMemoryBarrier;
use vstd::prelude::*;

verus! {

/// The driver's number for indices of 32 bits.
pub const INDEX_TYPE_UINT32: i32 = 1;

/// The driver's number for the graphics bind point.
pub const PIPELINE_BIND_POINT_GRAPHICS: i32 = 0;

/// The driver's number for a render pass whose commands are recorded inline.
pub const SUBPASS_CONTENTS_INLINE: i32 = 0;

/// One buffered instruction.
#[derive(Debug, Clone, PartialEq, Eq)]
pub enum Command {
    /// Sets the viewport to cover `extent`, flipped: it starts at the bottom
    /// edge and has the negated height, with depth from zero to one.
    SetViewport { extent: Extent2D },
    SetScissor { rect: Rect2D },
    BindIndexBuffer { buffer: u64, buffer_offset: u64, index_type: i32 },
    DrawIndexed {
        index_count: u32,
        instance_count: u32,
        first_index: u32,
        vertex_offset: i32,
        first_instance: u32,
    },
    PushConstants { layout: u64, stage_flags: u32, offset: u32, data: Vec<u8> },
    /// One pipeline barrier with all the image barriers of one transition
    /// point.
    PipelineBarrier {
        src_stage: u32,
        dst_stage: u32,
        dependency_flags: u32,
        image_barriers: Vec<ImageMemoryBarrier>,
    },
    CopyBufferToImage {
        buffer: u64,
        image: u64,
        image_layout: ImageLayout,
        aspect_mask: u32,
        layer_count: u32,
        image_extent: Extent3D,
    },
    BindPipeline { bind_point: i32, pipeline: u64 },
    BindDescriptorSets { bind_point: i32, layout: u64, first_set: u32, descriptor_set: u64 },
    BeginRenderPass {
        render_pass: u64,
        framebuffer: u64,
        render_area: Rect2D,
        clear_values: Vec<ClearValue>,
        contents: i32,
    },
    EndRenderPass,
}

/// One buffered instruction, as a mathematical value.
pub enum CommandView {
    SetViewport { extent: Extent2D },
    SetScissor { rect: Rect2D },
    BindIndexBuffer { buffer: u64, buffer_offset: u64, index_type: i32 },
    DrawIndexed {
        index_count: u32,
        instance_count: u32,
        first_index: u32,
        vertex_offset: i32,
        first_instance: u32,
    },
    PushConstants { layout: u64, stage_flags: u32, offset: u32, data: Seq<u8> },
    PipelineBarrier {
        src_stage: u32,
        dst_stage: u32,
        dependency_flags: u32,
        image_barriers: Seq<ImageMemoryBarrier>,
    },
    CopyBufferToImage {
        buffer: u64,
        image: u64,
        image_layout: ImageLayout,
        aspect_mask: u32,
        layer_count: u32,
        image_extent: Extent3D,
    },
    BindPipeline { bind_point: i32, pipeline: u64 },
    BindDescriptorSets { bind_point: i32, layout: u64, first_set: u32, descriptor_set: u64 },
    BeginRenderPass {
        render_pass: u64,
        framebuffer: u64,
        render_area: Rect2D,
        clear_values: Seq<ClearValue>,
        contents: i32,
    },
    EndRenderPass,
}

impl View for Command {
    type V = CommandView;

    open spec fn view(&self) -> CommandView {
        match *self {
            Command::SetViewport { extent } => CommandView::SetViewport { extent },
            Command::SetScissor { rect } => CommandView::SetScissor { rect },
            Command::BindIndexBuffer { buffer, buffer_offset, index_type } =>
                CommandView::BindIndexBuffer { buffer, buffer_offset, index_type },
            Command::DrawIndexed {
                index_count,
                instance_count,
                first_index,
                vertex_offset,
                first_instance,
            } => CommandView::DrawIndexed {
                index_count,
                instance_count,
                first_index,
                vertex_offset,
                first_instance,
            },
            Command::PushConstants { layout, stage_flags, offset, data } =>
                CommandView::PushConstants { layout, stage_flags, offset, data: data@ },
            Command::PipelineBarrier { src_stage, dst_stage, dependency_flags, image_barriers } =>
                CommandView::PipelineBarrier {
                src_stage,
                dst_stage,
                dependency_flags,
                image_barriers: image_barriers@,
            },
            Command::CopyBufferToImage {
                buffer,
                image,
                image_layout,
                aspect_mask,
                layer_count,
                image_extent,
            } => CommandView::CopyBufferToImage {
                buffer,
                image,
                image_layout,
                aspect_mask,
                layer_count,
                image_extent,
            },
            Command::BindPipeline { bind_point, pipeline } => CommandView::BindPipeline {
                bind_point,
                pipeline,
            },
            Command::BindDescriptorSets { bind_point, layout, first_set, descriptor_set } =>
                CommandView::BindDescriptorSets { bind_point, layout, first_set, descriptor_set },
            Command::BeginRenderPass {
                render_pass,
                framebuffer,
                render_area,
                clear_values,
                contents,
            } => CommandView::BeginRenderPass {
                render_pass,
                framebuffer,
                render_area,
                clear_values: clear_values@,
                contents,
            },
            Command::EndRenderPass => CommandView::EndRenderPass,
        }
    }
}

/// The commands of `commands`, in order, as mathematical values.
pub open spec fn views_of(commands: Seq<Command>) -> Seq<CommandView> {
    Seq::new(commands.len(), |i: int| commands[i]@)
}

} // verus!
