//! Descriptors: the pool, the bindings of a set, and the writes that point
//! each binding at its buffer.
use crate::error::Error;
use crate::resources::buffer::Buffer;
use vstd::prelude::*;

verus! {

/// The most descriptors of one type that the pool holds.
pub const MAX_BINDLESS_RESOURCES: u32 = 16536;

/// The flag with which sets of a pool can be updated after they are bound.
pub const DESCRIPTOR_POOL_CREATE_UPDATE_AFTER_BIND: u32 = 0x2;

/// The driver's number for an image with its sampler.
pub const DESCRIPTOR_TYPE_COMBINED_IMAGE_SAMPLER: i32 = 1;

/// The driver's number for a uniform buffer.
pub const DESCRIPTOR_TYPE_UNIFORM_BUFFER: i32 = 6;

/// The driver's number for a storage buffer.
pub const DESCRIPTOR_TYPE_STORAGE_BUFFER: i32 = 7;

/// The vertex stage of a shader.
pub const SHADER_STAGE_VERTEX: u32 = 0x1;

/// The fragment stage of a shader.
pub const SHADER_STAGE_FRAGMENT: u32 = 0x10;

/// How many descriptors of one type a pool holds.
#[derive(Debug, Copy, Clone, PartialEq, Eq, Structural)]
pub struct DescriptorPoolSize {
    pub ty: i32,
    pub descriptor_count: u32,
}

/// What the driver is asked to create the descriptor pool with.
#[derive(Debug, PartialEq, Eq)]
pub struct DescriptorPoolCreateInfo {
    pub flags: u32,
    pub max_sets: u32,
    pub pool_sizes: Vec<DescriptorPoolSize>,
}

/// A descriptor pool.
#[derive(Debug, PartialEq, Eq)]
pub struct DescriptorPool {
    pub pool: u64,
}

impl DescriptorPool {
    /// What the driver is asked to create the pool with: room for the most
    /// images with samplers and the most storage buffers, in as many sets as
    /// there are types, each of which can be updated after it is bound.
    pub fn create_info() -> (info: DescriptorPoolCreateInfo)
        ensures
            info.flags == DESCRIPTOR_POOL_CREATE_UPDATE_AFTER_BIND,
            info.max_sets == 2,
            info.pool_sizes@ == seq![
                DescriptorPoolSize {
                    ty: DESCRIPTOR_TYPE_COMBINED_IMAGE_SAMPLER,
                    descriptor_count: MAX_BINDLESS_RESOURCES,
                },
                DescriptorPoolSize {
                    ty: DESCRIPTOR_TYPE_STORAGE_BUFFER,
                    descriptor_count: MAX_BINDLESS_RESOURCES,
                },
            ],
    {
        let pool_sizes = vec![
            DescriptorPoolSize {
                ty: DESCRIPTOR_TYPE_COMBINED_IMAGE_SAMPLER,
                descriptor_count: MAX_BINDLESS_RESOURCES,
            },
            DescriptorPoolSize {
                ty: DESCRIPTOR_TYPE_STORAGE_BUFFER,
                descriptor_count: MAX_BINDLESS_RESOURCES,
            },
        ];
        let max_sets: u32 = pool_sizes.len() as u32;
        DescriptorPoolCreateInfo {
            flags: DESCRIPTOR_POOL_CREATE_UPDATE_AFTER_BIND,
            max_sets,
            pool_sizes,
        }
    }

    /// The pool that the driver created, or the error with which it refused.
    pub fn new(created: Result<u64, i32>) -> (pool: Result<DescriptorPool, Error>)
        ensures
            match created {
                Ok(handle) => pool matches Ok(p) && p.pool == handle,
                Err(code) => pool matches Err(e) && e == (Error::Driver { code }),
            },
    {
        match created {
            Ok(handle) => Ok(DescriptorPool { pool: handle }),
            Err(code) => Err(Error::Driver { code }),
        }
    }
}

/// The part of a buffer that a descriptor points at.
#[derive(Debug, Copy, Clone, PartialEq, Eq, Structural)]
pub struct DescriptorBufferInfo {
    pub buffer: u64,
    pub offset: u64,
    pub range: u64,
}

impl DescriptorBufferInfo {
    /// The part of `buffer` from `offset` on, `range` bytes long: from the
    /// start where no offset is given, and as long as the whole buffer where
    /// no range is given.
    pub fn new(buffer: &Buffer, offset: Option<u64>, range: Option<u64>) -> (info:
        DescriptorBufferInfo)
        ensures
            info == (DescriptorBufferInfo {
                buffer: buffer.buffer,
                offset: match offset {
                    Some(o) => o,
                    None => 0,
                },
                range: match range {
                    Some(r) => r,
                    None => buffer.size,
                },
            }),
    {
        DescriptorBufferInfo {
            buffer: buffer.buffer,
            offset: offset.unwrap_or(0),
            range: range.unwrap_or(buffer.size),
        }
    }
}

/// What a binding holds, with the buffer that it points at.
#[derive(Debug, Copy, Clone, PartialEq, Eq, Structural)]
pub enum DescriptorType {
    StorageBuffer(DescriptorBufferInfo),
    UniformBuffer(DescriptorBufferInfo),
}

impl DescriptorType {
    /// The driver's number for the type.
    pub open spec fn spec_raw(self) -> i32 {
        match self {
            DescriptorType::StorageBuffer(_) => DESCRIPTOR_TYPE_STORAGE_BUFFER,
            DescriptorType::UniformBuffer(_) => DESCRIPTOR_TYPE_UNIFORM_BUFFER,
        }
    }

    /// The buffer that the binding points at.
    pub open spec fn spec_buffer_info(self) -> DescriptorBufferInfo {
        match self {
            DescriptorType::StorageBuffer(info) => info,
            DescriptorType::UniformBuffer(info) => info,
        }
    }

    /// The driver's number for the type.
    #[verifier::when_used_as_spec(spec_raw)]
    pub fn raw(self) -> (raw: i32)
        ensures
            raw == self.spec_raw(),
    {
        match self {
            DescriptorType::StorageBuffer(_) => DESCRIPTOR_TYPE_STORAGE_BUFFER,
            DescriptorType::UniformBuffer(_) => DESCRIPTOR_TYPE_UNIFORM_BUFFER,
        }
    }

    /// The buffer that the binding points at.
    #[verifier::when_used_as_spec(spec_buffer_info)]
    pub fn buffer_info(self) -> (info: DescriptorBufferInfo)
        ensures
            info == self.spec_buffer_info(),
    {
        match self {
            DescriptorType::StorageBuffer(info) => info,
            DescriptorType::UniformBuffer(info) => info,
        }
    }
}

/// A stage of a shader program.
#[derive(Debug, Copy, Clone, PartialEq, Eq, Structural)]
pub enum ShaderStage {
    Vertex,
    Fragment,
}

impl ShaderStage {
    /// The stage flag that the driver knows the stage by.
    pub open spec fn spec_bits(self) -> u32 {
        match self {
            ShaderStage::Vertex => SHADER_STAGE_VERTEX,
            ShaderStage::Fragment => SHADER_STAGE_FRAGMENT,
        }
    }

    /// The stage flag that the driver knows the stage by.
    #[verifier::when_used_as_spec(spec_bits)]
    pub fn bits(self) -> (bits: u32)
        ensures
            bits == self.spec_bits(),
    {
        match self {
            ShaderStage::Vertex => SHADER_STAGE_VERTEX,
            ShaderStage::Fragment => SHADER_STAGE_FRAGMENT,
        }
    }
}

/// One binding of a descriptor set.
#[derive(Debug, Copy, Clone, PartialEq, Eq, Structural)]
pub struct BindingDesc {
    pub ty: DescriptorType,
    pub count: u32,
    pub stage: ShaderStage,
}

impl BindingDesc {
    /// The binding of `count` descriptors of `ty` for the stage `stage`.
    pub fn new(ty: DescriptorType, count: u32, stage: ShaderStage) -> (desc: BindingDesc)
        ensures
            desc == (BindingDesc { ty, count, stage }),
    {
        Self { ty, count, stage }
    }
}

/// One binding, as the driver is told of it in the layout of a set.
#[derive(Debug, Copy, Clone, PartialEq, Eq, Structural)]
pub struct DescriptorSetLayoutBinding {
    pub binding: u32,
    pub descriptor_type: i32,
    pub descriptor_count: u32,
    pub stage_flags: u32,
}

/// One write that points a binding of a set at its buffer.
#[derive(Debug, Copy, Clone, PartialEq, Eq, Structural)]
pub struct WriteDescriptorSet {
    pub dst_set: u64,
    pub dst_binding: u32,
    pub descriptor_type: i32,
    pub buffer_info: DescriptorBufferInfo,
}

/// The binding at `index` of a set's layout.
pub open spec fn layout_binding(descs: Seq<BindingDesc>, index: int) -> DescriptorSetLayoutBinding {
    DescriptorSetLayoutBinding {
        binding: index as u32,
        descriptor_type: descs[index].ty.spec_raw(),
        descriptor_count: descs[index].count,
        stage_flags: descs[index].stage.spec_bits(),
    }
}

/// The write for the binding at `index` of the set `descriptor_set`.
pub open spec fn binding_write(
    descriptor_set: u64,
    descs: Seq<BindingDesc>,
    index: int,
) -> WriteDescriptorSet {
    WriteDescriptorSet {
        dst_set: descriptor_set,
        dst_binding: index as u32,
        descriptor_type: descs[index].ty.spec_raw(),
        buffer_info: descs[index].ty.spec_buffer_info(),
    }
}

/// A descriptor set with its layout and the writes that fill it.
#[derive(Debug, PartialEq, Eq)]
pub struct DescriptorSet {
    pub layout: u64,
    pub descriptor_set: u64,
    pub write_descriptor_sets: Vec<WriteDescriptorSet>,
}

impl DescriptorSet {
    /// The bindings that the driver is asked to create the set's layout
    /// with: one for each of `binding_descs`, numbered in their order.
    pub fn layout_bindings(binding_descs: &[BindingDesc]) -> (bindings: Vec<
        DescriptorSetLayoutBinding,
    >)
        requires
            binding_descs@.len() <= u32::MAX,
        ensures
            bindings@.len() == binding_descs@.len(),
            forall|i: int|
                0 <= i < bindings@.len() ==> #[trigger] bindings@[i] == layout_binding(
                    binding_descs@,
                    i,
                ),
    {
        let mut bindings: Vec<DescriptorSetLayoutBinding> = Vec::new();
        let mut i: usize = 0;
        while i < binding_descs.len()
            invariant
                binding_descs@.len() <= u32::MAX,
                i <= binding_descs@.len(),
                bindings@.len() == i,
                forall|j: int|
                    0 <= j < i ==> #[trigger] bindings@[j] == layout_binding(binding_descs@, j),
            decreases binding_descs@.len() - i,
        {
            let desc = binding_descs[i];
            bindings.push(
                DescriptorSetLayoutBinding {
                    binding: i as u32,
                    descriptor_type: desc.ty.raw(),
                    descriptor_count: desc.count,
                    stage_flags: desc.stage.bits(),
                },
            );
            i += 1;
        }
        bindings
    }

    /// The set made of the layout and the set that the driver created, with
    /// one write for each of `binding_descs`, numbered in their order, that
    /// points the binding at its buffer.
    pub fn new(layout: u64, descriptor_set: u64, binding_descs: &[BindingDesc]) -> (made:
        DescriptorSet)
        requires
            binding_descs@.len() <= u32::MAX,
        ensures
            made.layout == layout,
            made.descriptor_set == descriptor_set,
            made.write_descriptor_sets@.len() == binding_descs@.len(),
            forall|i: int|
                0 <= i < binding_descs@.len() ==> #[trigger] made.write_descriptor_sets@[i]
                    == binding_write(descriptor_set, binding_descs@, i),
    {
        let mut writes: Vec<WriteDescriptorSet> = Vec::new();
        let mut i: usize = 0;
        while i < binding_descs.len()
            invariant
                binding_descs@.len() <= u32::MAX,
                i <= binding_descs@.len(),
                writes@.len() == i,
                forall|j: int|
                    0 <= j < i ==> #[trigger] writes@[j] == binding_write(
                        descriptor_set,
                        binding_descs@,
                        j,
                    ),
            decreases binding_descs@.len() - i,
        {
            let desc = binding_descs[i];
            writes.push(
                WriteDescriptorSet {
                    dst_set: descriptor_set,
                    dst_binding: i as u32,
                    descriptor_type: desc.ty.raw(),
                    buffer_info: desc.ty.buffer_info(),
                },
            );
            i += 1;
        }
        DescriptorSet { layout, descriptor_set, write_descriptor_sets: writes }
    }

    /// The writes that the driver is handed to fill the set, in order.
    pub fn update(&self) -> (writes: Vec<WriteDescriptorSet>)
        ensures
            writes@ == self.write_descriptor_sets@,
    {
        self.write_descriptor_sets.clone()
    }
}

} // verus!
