//! The graphics pipeline: what it is created with, and how it is bound.
use crate::command::{Command, PIPELINE_BIND_POINT_GRAPHICS};
use crate::context::{Context, ContextState};
use crate::descriptors::DescriptorSet;
use crate::driver::{DriverCall, Extent2D, Rect2D};
use crate::error::{Error, Failure};
use crate::push_constant::{PushConstant, PushConstantRange};
use crate::render_pass::RenderPass;
use crate::resources::image::SAMPLE_COUNT_1;
use crate::shader::graphics_program::GraphicsProgram;
use crate::swapchain::Swapchain;
use vstd::prelude::*;

verus! {

/// The driver's number for lists of triangles.
pub const PRIMITIVE_TOPOLOGY_TRIANGLE_LIST: i32 = 3;

/// The driver's number for filled polygons.
pub const POLYGON_MODE_FILL: i32 = 0;

/// No face is culled.
pub const CULL_MODE_NONE: u32 = 0x0;

/// Faces that look away are culled.
pub const CULL_MODE_BACK: u32 = 0x2;

/// The driver's number for front faces that wind counter-clockwise.
pub const FRONT_FACE_COUNTER_CLOCKWISE: i32 = 0;

/// The driver's number for the stencil operation that keeps the value.
pub const STENCIL_OP_KEEP: i32 = 0;

/// The driver's number for the comparison that always passes.
pub const COMPARE_OP_ALWAYS: i32 = 7;

/// All four colour channels.
pub const COLOR_COMPONENT_RGBA: u32 = 0xf;

/// The driver's number for the blend factor one.
pub const BLEND_FACTOR_ONE: i32 = 1;

/// The driver's number for the blend factor one minus the source alpha.
pub const BLEND_FACTOR_ONE_MINUS_SRC_ALPHA: i32 = 7;

/// The driver's number for the viewport as dynamic state.
pub const DYNAMIC_STATE_VIEWPORT: i32 = 0;

/// The driver's number for the scissor rectangle as dynamic state.
pub const DYNAMIC_STATE_SCISSOR: i32 = 1;

/// One buffer that vertices are fetched from.
#[derive(Debug, Copy, Clone, PartialEq, Eq, Structural)]
pub struct VertexInputBindingDescription {
    pub binding: u32,
    pub stride: u32,
    pub input_rate: i32,
}

/// One attribute of a vertex.
#[derive(Debug, Copy, Clone, PartialEq, Eq, Structural)]
pub struct VertexInputAttributeDescription {
    pub location: u32,
    pub binding: u32,
    pub format: i32,
    pub offset: u32,
}

/// What the vertex input of a pipeline is created with.
#[derive(Debug, PartialEq, Eq)]
pub struct PipelineVertexInputStateCreateInfo {
    pub vertex_binding_descriptions: Vec<VertexInputBindingDescription>,
    pub vertex_attribute_descriptions: Vec<VertexInputAttributeDescription>,
}

/// The layout of the vertices that a pipeline reads.
#[derive(Debug, PartialEq, Eq)]
pub struct VertexInputData {
    pub bindings: Vec<VertexInputBindingDescription>,
    pub attributes: Vec<VertexInputAttributeDescription>,
}

impl VertexInputData {
    /// What the vertex input of a pipeline is created with: the bindings and
    /// the attributes, as they are.
    pub fn create_info(&self) -> (info: PipelineVertexInputStateCreateInfo)
        ensures
            info.vertex_binding_descriptions@ == self.bindings@,
            info.vertex_attribute_descriptions@ == self.attributes@,
    {
        PipelineVertexInputStateCreateInfo {
            vertex_binding_descriptions: self.bindings.clone(),
            vertex_attribute_descriptions: self.attributes.clone(),
        }
    }
}

/// Why a pipeline could not be made.
#[derive(Debug, Copy, Clone, PartialEq, Eq, Structural)]
pub enum PipelineCrationError {
    /// The driver refused, with this result code.
    CouldNotCreatePipelines(i32),
}

/// What the driver is asked to create the pipeline's layout with.
#[derive(Debug, PartialEq, Eq)]
pub struct PipelineLayoutCreateInfo {
    pub set_layouts: Vec<u64>,
    pub push_constant_ranges: Vec<PushConstantRange>,
}

/// What the driver is asked to create the pipeline with, but for its vertex
/// input. Lines are one pixel wide, and the entry point of both shaders is
/// `main`.
#[derive(Debug, Copy, Clone, PartialEq, Eq, Structural)]
pub struct GraphicsPipelineCreateInfo {
    pub vertex_module: u64,
    pub fragment_module: u64,
    pub viewport: Extent2D,
    pub scissor: Rect2D,
    pub topology: i32,
    pub depth_clamp_enable: bool,
    pub rasterizer_discard_enable: bool,
    pub polygon_mode: i32,
    pub cull_mode: u32,
    pub front_face: i32,
    pub depth_bias_enable: bool,
    pub stencil_fail_op: i32,
    pub stencil_pass_op: i32,
    pub stencil_compare_op: i32,
    pub depth_test_enable: bool,
    pub depth_write_enable: bool,
    pub depth_compare_op: i32,
    pub depth_bounds_test_enable: bool,
    pub stencil_test_enable: bool,
    pub color_write_mask: u32,
    pub blend_enable: bool,
    pub src_color_blend_factor: i32,
    pub dst_color_blend_factor: i32,
    pub dynamic_viewport: bool,
    pub dynamic_scissor: bool,
    pub rasterization_samples: u32,
    pub layout: u64,
    pub render_pass: u64,
    pub subpass: u32,
}

/// A graphics pipeline with its layout.
#[derive(Debug, PartialEq, Eq)]
pub struct GraphicsPipeline {
    pub layout: u64,
    pub pipeline: u64,
}

/// The layouts of `sets`, in order.
pub open spec fn layouts_of(sets: Seq<&DescriptorSet>) -> Seq<u64> {
    Seq::new(sets.len(), |i: int| sets[i].layout)
}

/// The ranges of `constants` as the driver is told of them, in order.
pub open spec fn ranges_of(constants: Seq<&PushConstant>) -> Seq<PushConstantRange> {
    Seq::new(
        constants.len(),
        |i: int|
            PushConstantRange {
                stage_flags: constants[i].stage.spec_bits(),
                offset: constants[i].offset,
                size: constants[i].size,
            },
    )
}

impl GraphicsPipeline {
    /// What the driver is asked to create the pipeline's layout with: the
    /// layouts of the descriptor sets and the ranges of the push constants,
    /// each in their order.
    pub fn layout_create_info(
        descriptor_sets: &[&DescriptorSet],
        push_constants: &[&PushConstant],
    ) -> (info: PipelineLayoutCreateInfo)
        ensures
            info.set_layouts@ == layouts_of(descriptor_sets@),
            info.push_constant_ranges@ == ranges_of(push_constants@),
    {
        let mut set_layouts: Vec<u64> = Vec::new();
        let mut i: usize = 0;
        while i < descriptor_sets.len()
            invariant
                i <= descriptor_sets@.len(),
                set_layouts@ == layouts_of(descriptor_sets@.take(i as int)),
            decreases descriptor_sets@.len() - i,
        {
            set_layouts.push(descriptor_sets[i].layout);
            i += 1;
            assert(set_layouts@ =~= layouts_of(descriptor_sets@.take(i as int)));
        }
        assert(descriptor_sets@.take(i as int) =~= descriptor_sets@);
        let mut ranges: Vec<PushConstantRange> = Vec::new();
        let mut j: usize = 0;
        while j < push_constants.len()
            invariant
                j <= push_constants@.len(),
                ranges@ == ranges_of(push_constants@.take(j as int)),
            decreases push_constants@.len() - j,
        {
            ranges.push(push_constants[j].to_raw());
            j += 1;
            assert(ranges@ =~= ranges_of(push_constants@.take(j as int)));
        }
        assert(push_constants@.take(j as int) =~= push_constants@);
        PipelineLayoutCreateInfo { set_layouts, push_constant_ranges: ranges }
    }

    /// What the driver is asked to create the vertex input with: that of
    /// `vertex_iput_state`, or none where there is none.
    pub fn vertex_input_state(vertex_iput_state: Option<VertexInputData>) -> (info:
        PipelineVertexInputStateCreateInfo)
        ensures
            match vertex_iput_state {
                Some(state) => info.vertex_binding_descriptions@ == state.bindings@
                    && info.vertex_attribute_descriptions@ == state.attributes@,
                None => info.vertex_binding_descriptions@.len() == 0
                    && info.vertex_attribute_descriptions@.len() == 0,
            },
    {
        match vertex_iput_state {
            Some(state) => state.create_info(),
            None => PipelineVertexInputStateCreateInfo {
                vertex_binding_descriptions: Vec::new(),
                vertex_attribute_descriptions: Vec::new(),
            },
        }
    }

    /// What the driver is asked to create the pipeline with: the two shaders
    /// of `program`, filled triangles with counter-clockwise front faces,
    /// culled at the back where `cull_back_faces` is set, no depth or stencil
    /// test, colours blended over what is there, viewport and scissor set
    /// while recording, one sample, for the first subpass of `render_pass`.
    pub fn create_info(
        swapchain: &Swapchain,
        render_pass: &RenderPass,
        program: &GraphicsProgram,
        layout: u64,
        cull_back_faces: bool,
    ) -> (info: GraphicsPipelineCreateInfo)
        ensures
            info == (GraphicsPipelineCreateInfo {
                vertex_module: program.vertex_shader.module,
                fragment_module: program.fragment_shader.module,
                viewport: swapchain.surface_data.resolution,
                scissor: Rect2D::covering(swapchain.surface_data.resolution),
                topology: PRIMITIVE_TOPOLOGY_TRIANGLE_LIST,
                depth_clamp_enable: false,
                rasterizer_discard_enable: false,
                polygon_mode: POLYGON_MODE_FILL,
                cull_mode: if cull_back_faces {
                    CULL_MODE_BACK
                } else {
                    CULL_MODE_NONE
                },
                front_face: FRONT_FACE_COUNTER_CLOCKWISE,
                depth_bias_enable: false,
                stencil_fail_op: STENCIL_OP_KEEP,
                stencil_pass_op: STENCIL_OP_KEEP,
                stencil_compare_op: COMPARE_OP_ALWAYS,
                depth_test_enable: false,
                depth_write_enable: false,
                depth_compare_op: COMPARE_OP_ALWAYS,
                depth_bounds_test_enable: false,
                stencil_test_enable: false,
                color_write_mask: COLOR_COMPONENT_RGBA,
                blend_enable: true,
                src_color_blend_factor: BLEND_FACTOR_ONE,
                dst_color_blend_factor: BLEND_FACTOR_ONE_MINUS_SRC_ALPHA,
                dynamic_viewport: true,
                dynamic_scissor: true,
                rasterization_samples: SAMPLE_COUNT_1,
                layout,
                render_pass: render_pass.render_pass,
                subpass: 0,
            }),
    {
        GraphicsPipelineCreateInfo {
            vertex_module: program.vertex_shader.module,
            fragment_module: program.fragment_shader.module,
            viewport: swapchain.resolution(),
            scissor: swapchain.scissor(),
            topology: PRIMITIVE_TOPOLOGY_TRIANGLE_LIST,
            depth_clamp_enable: false,
            rasterizer_discard_enable: false,
            polygon_mode: POLYGON_MODE_FILL,
            cull_mode: if cull_back_faces {
                CULL_MODE_BACK
            } else {
                CULL_MODE_NONE
            },
            front_face: FRONT_FACE_COUNTER_CLOCKWISE,
            depth_bias_enable: false,
            stencil_fail_op: STENCIL_OP_KEEP,
            stencil_pass_op: STENCIL_OP_KEEP,
            stencil_compare_op: COMPARE_OP_ALWAYS,
            depth_test_enable: false,
            depth_write_enable: false,
            depth_compare_op: COMPARE_OP_ALWAYS,
            depth_bounds_test_enable: false,
            stencil_test_enable: false,
            color_write_mask: COLOR_COMPONENT_RGBA,
            blend_enable: true,
            src_color_blend_factor: BLEND_FACTOR_ONE,
            dst_color_blend_factor: BLEND_FACTOR_ONE_MINUS_SRC_ALPHA,
            dynamic_viewport: true,
            dynamic_scissor: true,
            rasterization_samples: SAMPLE_COUNT_1,
            layout,
            render_pass: render_pass.render_pass,
            subpass: 0,
        }
    }

    /// The pipeline with the layout `layout`, made of the first pipeline that
    /// the driver created. Fails where the driver refused, with its result
    /// code, or handed back no pipeline; the failure names the call that
    /// destroys the layout, which was made for this pipeline alone.
    pub fn new(layout: u64, created: Result<Vec<u64>, i32>) -> (pipeline: Result<
        GraphicsPipeline,
        Failure,
    >)
        ensures
            match created {
                Ok(pipelines) => if pipelines@.len() > 0 {
                    pipeline matches Ok(p) && p.layout == layout && p.pipeline == pipelines@[0]
                } else {
                    pipeline matches Err(failure) && failure.error == Error::UnexpectedCount
                },
                Err(code) => pipeline matches Err(failure) && failure.error
                    == Error::PipelineCreation(PipelineCrationError::CouldNotCreatePipelines(code)),
            },
            pipeline matches Err(failure) ==> failure.release@ == seq![
                DriverCall::DestroyPipelineLayout { layout },
            ],
    {
        let error = match created {
            Ok(pipelines) => {
                if pipelines.len() > 0 {
                    return Ok(GraphicsPipeline { layout, pipeline: pipelines[0] });
                }
                Error::UnexpectedCount
            },
            Err(code) => Error::PipelineCreation(
                PipelineCrationError::CouldNotCreatePipelines(code),
            ),
        };
        let release = vec![DriverCall::DestroyPipelineLayout { layout }];
        Err(Failure { error, release })
    }

    /// Records the binding of the pipeline for drawing.
    ///
    /// The context must be recording.
    pub fn bind(&self, context: &mut Context)
        requires
            old(context).state == ContextState::Recording,
        ensures
            final(context).commands@ =~= old(context).commands@.push(
                Command::BindPipeline {
                    bind_point: PIPELINE_BIND_POINT_GRAPHICS,
                    pipeline: self.pipeline,
                },
            ),
            final(context).command_buffer == old(context).command_buffer,
            final(context).state == ContextState::Recording,
            final(context).fence == old(context).fence,
    {
        context.push(
            Command::BindPipeline {
                bind_point: PIPELINE_BIND_POINT_GRAPHICS,
                pipeline: self.pipeline,
            },
        );
    }

    /// Records the binding of `descriptor_set` as the first set of the
    /// pipeline's layout, for drawing.
    ///
    /// The context must be recording.
    pub fn bind_descriptor_set(&self, context: &mut Context, descriptor_set: &DescriptorSet)
        requires
            old(context).state == ContextState::Recording,
        ensures
            final(context).commands@ =~= old(context).commands@.push(
                Command::BindDescriptorSets {
                    bind_point: PIPELINE_BIND_POINT_GRAPHICS,
                    layout: self.layout,
                    first_set: 0,
                    descriptor_set: descriptor_set.descriptor_set,
                },
            ),
            final(context).command_buffer == old(context).command_buffer,
            final(context).state == ContextState::Recording,
            final(context).fence == old(context).fence,
    {
        context.push(
            Command::BindDescriptorSets {
                bind_point: PIPELINE_BIND_POINT_GRAPHICS,
                layout: self.layout,
                first_set: 0,
                descriptor_set: descriptor_set.descriptor_set,
            },
        );
    }

    /// Gives the pipeline up: the calls that destroy the pipeline, then its
    /// layout.
    pub fn clean(&self) -> (calls: Vec<DriverCall>)
        ensures
            calls@ == seq![
                DriverCall::DestroyPipeline { pipeline: self.pipeline },
                DriverCall::DestroyPipelineLayout { layout: self.layout },
            ],
    {
        let calls = vec![
            DriverCall::DestroyPipeline { pipeline: self.pipeline },
            DriverCall::DestroyPipelineLayout { layout: self.layout },
        ];
        calls
    }
}

} // verus!
