//! The render pass: one colour attachment that is cleared, drawn to, and left
//! ready to be presented.
use crate::command::{Command, CommandView, PIPELINE_BIND_POINT_GRAPHICS, SUBPASS_CONTENTS_INLINE};
use crate::context::{Context, ContextState};
use crate::driver::{DriverCall, Rect2D};
use crate::resources::image::{ImageLayout, SAMPLE_COUNT_1};
use crate::swapchain::Swapchain;
use vstd::prelude::*;
use vstd::slice::slice_to_vec;

verus! {

/// The driver's number for an attachment that is cleared when the pass
/// begins.
pub const ATTACHMENT_LOAD_OP_CLEAR: i32 = 1;

/// The driver's number for an attachment that is kept when the pass ends.
pub const ATTACHMENT_STORE_OP_STORE: i32 = 0;

/// What an attachment is cleared to. A floating-point number is held as its
/// bits.
#[derive(Debug, Copy, Clone, PartialEq, Eq, Structural)]
pub enum ClearValue {
    Color { r_bits: u32, g_bits: u32, b_bits: u32, a_bits: u32 },
    Depth { depth_bits: u32, stencil: u32 },
}

/// What the driver is asked to create the render pass with: one attachment
/// and one subpass that draws to it as colour.
#[derive(Debug, Copy, Clone, PartialEq, Eq, Structural)]
pub struct RenderPassCreateInfo {
    pub format: i32,
    pub samples: u32,
    pub load_op: i32,
    pub store_op: i32,
    pub initial_layout: ImageLayout,
    pub final_layout: ImageLayout,
    pub color_attachment: u32,
    pub color_layout: ImageLayout,
    pub pipeline_bind_point: i32,
}

/// What the driver is asked to create one framebuffer with.
#[derive(Debug, Copy, Clone, PartialEq, Eq, Structural)]
pub struct FramebufferCreateInfo {
    pub render_pass: u64,
    pub attachment: u64,
    pub width: u32,
    pub height: u32,
    pub layers: u32,
}

/// A render pass with one framebuffer for each image of the swapchain.
#[derive(Debug, PartialEq, Eq)]
pub struct RenderPass {
    pub render_pass: u64,
    pub framebuffers: Vec<u64>,
    pub clear_values: Vec<ClearValue>,
    pub render_area: Rect2D,
}

/// The framebuffer for the image view `view` of `swapchain`.
pub open spec fn framebuffer_info(
    render_pass: u64,
    swapchain: Swapchain,
    view: u64,
) -> FramebufferCreateInfo {
    FramebufferCreateInfo {
        render_pass,
        attachment: view,
        width: swapchain.surface_data.resolution.width,
        height: swapchain.surface_data.resolution.height,
        layers: 1,
    }
}

impl RenderPass {
    /// What the driver is asked to create the render pass with: the
    /// attachment has the format of the swapchain and one sample, is cleared
    /// at the start and kept at the end, starts out undefined and is left
    /// ready to be presented.
    pub fn create_info(swapchain: &Swapchain) -> (info: RenderPassCreateInfo)
        ensures
            info == (RenderPassCreateInfo {
                format: swapchain.surface_data.format.format,
                samples: SAMPLE_COUNT_1,
                load_op: ATTACHMENT_LOAD_OP_CLEAR,
                store_op: ATTACHMENT_STORE_OP_STORE,
                initial_layout: ImageLayout::Undefined,
                final_layout: ImageLayout::PresentSrc,
                color_attachment: 0,
                color_layout: ImageLayout::ColorAttachment,
                pipeline_bind_point: PIPELINE_BIND_POINT_GRAPHICS,
            }),
    {
        RenderPassCreateInfo {
            format: swapchain.surface_data.format.format,
            samples: SAMPLE_COUNT_1,
            load_op: ATTACHMENT_LOAD_OP_CLEAR,
            store_op: ATTACHMENT_STORE_OP_STORE,
            initial_layout: ImageLayout::Undefined,
            final_layout: ImageLayout::PresentSrc,
            color_attachment: 0,
            color_layout: ImageLayout::ColorAttachment,
            pipeline_bind_point: PIPELINE_BIND_POINT_GRAPHICS,
        }
    }

    /// What the driver is asked to create the framebuffers with: one for each
    /// image view of the swapchain, in their order, of the swapchain's size
    /// and of one layer.
    pub fn framebuffer_infos(render_pass: u64, swapchain: &Swapchain) -> (infos: Vec<
        FramebufferCreateInfo,
    >)
        ensures
            infos@.len() == swapchain.present_image_views@.len(),
            forall|i: int|
                0 <= i < infos@.len() ==> #[trigger] infos@[i] == framebuffer_info(
                    render_pass,
                    *swapchain,
                    swapchain.present_image_views@[i],
                ),
    {
        let mut infos: Vec<FramebufferCreateInfo> = Vec::new();
        let mut i: usize = 0;
        while i < swapchain.present_image_views.len()
            invariant
                i <= swapchain.present_image_views@.len(),
                infos@.len() == i,
                forall|j: int|
                    0 <= j < i ==> #[trigger] infos@[j] == framebuffer_info(
                        render_pass,
                        *swapchain,
                        swapchain.present_image_views@[j],
                    ),
            decreases swapchain.present_image_views@.len() - i,
        {
            infos.push(
                FramebufferCreateInfo {
                    render_pass,
                    attachment: swapchain.present_image_views[i],
                    width: swapchain.width(),
                    height: swapchain.height(),
                    layers: 1,
                },
            );
            i += 1;
        }
        infos
    }

    /// The render pass made of what the driver created, with the values to
    /// clear to. It draws to the whole of the swapchain's images.
    pub fn new(
        render_pass: u64,
        framebuffers: Vec<u64>,
        swapchain: &Swapchain,
        clear_values: &[ClearValue],
    ) -> (made: RenderPass)
        ensures
            made.render_pass == render_pass,
            made.framebuffers == framebuffers,
            made.clear_values@ == clear_values@,
            made.render_area == Rect2D::covering(swapchain.surface_data.resolution),
    {
        RenderPass {
            render_pass,
            framebuffers,
            clear_values: slice_to_vec(clear_values),
            render_area: swapchain.scissor(),
        }
    }

    /// Records the begin of the pass on the framebuffer of the image
    /// `present_index`, with the commands of the pass inline.
    ///
    /// The context must be recording, and the render pass must have a
    /// framebuffer for the image.
    pub fn begin(&self, context: &mut Context, present_index: u32)
        requires
            old(context).state == ContextState::Recording,
            present_index < self.framebuffers@.len(),
        ensures
            final(context).commands@.len() == old(context).commands@.len() + 1,
            final(context).commands@.drop_last() == old(context).commands@,
            final(context).commands@.last()@ == (CommandView::BeginRenderPass {
                render_pass: self.render_pass,
                framebuffer: self.framebuffers@[present_index as int],
                render_area: self.render_area,
                clear_values: self.clear_values@,
                contents: SUBPASS_CONTENTS_INLINE,
            }),
            final(context).command_buffer == old(context).command_buffer,
            final(context).state == ContextState::Recording,
            final(context).fence == old(context).fence,
    {
        context.push(
            Command::BeginRenderPass {
                render_pass: self.render_pass,
                framebuffer: self.framebuffers[present_index as usize],
                render_area: self.render_area,
                clear_values: self.clear_values.clone(),
                contents: SUBPASS_CONTENTS_INLINE,
            },
        );
        assert(context.commands@.drop_last() =~= old(context).commands@);
    }

    /// Records the end of the pass.
    ///
    /// The context must be recording.
    pub fn end(&self, context: &mut Context)
        requires
            old(context).state == ContextState::Recording,
        ensures
            final(context).commands@ =~= old(context).commands@.push(Command::EndRenderPass),
            final(context).command_buffer == old(context).command_buffer,
            final(context).state == ContextState::Recording,
            final(context).fence == old(context).fence,
    {
        context.push(Command::EndRenderPass);
    }

    /// Gives the render pass up: the calls that destroy each framebuffer, in
    /// order, then the render pass.
    pub fn clean(&self) -> (calls: Vec<DriverCall>)
        ensures
            calls@.len() == self.framebuffers@.len() + 1,
            forall|i: int|
                0 <= i < self.framebuffers@.len() ==> #[trigger] calls@[i]
                    == (DriverCall::DestroyFramebuffer { framebuffer: self.framebuffers@[i] }),
            calls@.last() == (DriverCall::DestroyRenderPass { render_pass: self.render_pass }),
    {
        let mut calls: Vec<DriverCall> = Vec::new();
        let mut i: usize = 0;
        while i < self.framebuffers.len()
            invariant
                i <= self.framebuffers@.len(),
                calls@.len() == i,
                forall|j: int|
                    0 <= j < i ==> #[trigger] calls@[j] == (DriverCall::DestroyFramebuffer {
                        framebuffer: self.framebuffers@[j],
                    }),
            decreases self.framebuffers@.len() - i,
        {
            calls.push(DriverCall::DestroyFramebuffer { framebuffer: self.framebuffers[i] });
            i += 1;
        }
        calls.push(DriverCall::DestroyRenderPass { render_pass: self.render_pass });
        calls
    }
}

} // verus!
