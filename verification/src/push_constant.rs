//! Push constants: small data that travels inside the command buffer.
use crate::descriptors::ShaderStage;
use vstd::prelude::*;

verus! {

/// A range of push constants, as the driver is told of it.
#[derive(Debug, Copy, Clone, PartialEq, Eq, Structural)]
pub struct PushConstantRange {
    pub stage_flags: u32,
    pub offset: u32,
    pub size: u32,
}

/// A range of push constants for one shader stage.
#[derive(Debug, Copy, Clone, PartialEq, Eq, Structural)]
pub struct PushConstant {
    pub stage: ShaderStage,
    pub offset: u32,
    pub size: u32,
}

impl PushConstant {
    /// The range as the driver is told of it.
    pub fn to_raw(&self) -> (range: PushConstantRange)
        ensures
            range == (PushConstantRange {
                stage_flags: self.stage.spec_bits(),
                offset: self.offset,
                size: self.size,
            }),
    {
        PushConstantRange { stage_flags: self.stage.bits(), offset: self.offset, size: self.size }
    }
}

} // verus!
