//! Pipeline stages, as the masks that barriers and submissions are scoped by.
pub mod graphics_pipeline;

pub use self::graphics_pipeline::GraphicsPipeline;

use vstd::prelude::*;

verus! {

/// One stage of the pipeline, or one of the two groups of stages.
#[derive(Debug, Copy, Clone, PartialEq, Eq, Structural)]
pub enum PipelineStages {
    TopOfPipe,
    DrawIndirect,
    VertexInput,
    VertexShader,
    TesselationControlShader,
    TessalationEvaluationShader,
    GeometryShader,
    FragmentShader,
    EarlyFragmentTests,
    LateFragmentTests,
    ColorAttachmentOutput,
    ComputeShader,
    Transfer,
    BottomOfPipe,
    Host,
    AllGraphics,
    AllCommands,
}

impl PipelineStages {
    /// The stage mask with exactly this stage's bit set.
    pub open spec fn mask(self) -> u32 {
        match self {
            PipelineStages::TopOfPipe => 0x0_0001,
            PipelineStages::DrawIndirect => 0x0_0002,
            PipelineStages::VertexInput => 0x0_0004,
            PipelineStages::VertexShader => 0x0_0008,
            PipelineStages::TesselationControlShader => 0x0_0010,
            PipelineStages::TessalationEvaluationShader => 0x0_0020,
            PipelineStages::GeometryShader => 0x0_0040,
            PipelineStages::FragmentShader => 0x0_0080,
            PipelineStages::EarlyFragmentTests => 0x0_0100,
            PipelineStages::LateFragmentTests => 0x0_0200,
            PipelineStages::ColorAttachmentOutput => 0x0_0400,
            PipelineStages::ComputeShader => 0x0_0800,
            PipelineStages::Transfer => 0x0_1000,
            PipelineStages::BottomOfPipe => 0x0_2000,
            PipelineStages::Host => 0x0_4000,
            PipelineStages::AllGraphics => 0x0_8000,
            PipelineStages::AllCommands => 0x1_0000,
        }
    }

    /// The stage as the driver's stage mask.
    pub fn bits(self) -> (bits: u32)
        ensures
            bits == self.mask(),
    {
        match self {
            PipelineStages::TopOfPipe => 0x0_0001,
            PipelineStages::DrawIndirect => 0x0_0002,
            PipelineStages::VertexInput => 0x0_0004,
            PipelineStages::VertexShader => 0x0_0008,
            PipelineStages::TesselationControlShader => 0x0_0010,
            PipelineStages::TessalationEvaluationShader => 0x0_0020,
            PipelineStages::GeometryShader => 0x0_0040,
            PipelineStages::FragmentShader => 0x0_0080,
            PipelineStages::EarlyFragmentTests => 0x0_0100,
            PipelineStages::LateFragmentTests => 0x0_0200,
            PipelineStages::ColorAttachmentOutput => 0x0_0400,
            PipelineStages::ComputeShader => 0x0_0800,
            PipelineStages::Transfer => 0x0_1000,
            PipelineStages::BottomOfPipe => 0x0_2000,
            PipelineStages::Host => 0x0_4000,
            PipelineStages::AllGraphics => 0x0_8000,
            PipelineStages::AllCommands => 0x1_0000,
        }
    }
}

} // verus!
