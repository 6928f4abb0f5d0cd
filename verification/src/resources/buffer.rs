//! Buffers, and what may be copied to them from the host.
use crate::driver::DriverCall;
use crate::error::Error;
use crate::mem::{
    find_memory_type_index, memory_type_suits, size_of_slice, MemoryRequirements,
    PhysicalDeviceMemoryProperties, MAX_MEMORY_TYPES, MEMORY_PROPERTY_HOST_COHERENT,
    MEMORY_PROPERTY_HOST_VISIBLE,
};
use crate::resources::image::{MemoryAllocateInfo, SHARING_MODE_EXCLUSIVE};
use vstd::layout::spec_size_of_val;
use vstd::prelude::*;

verus! {

/// A buffer that transfers read from.
pub const BUFFER_USAGE_TRANSFER_SRC: u32 = 0x1;

/// A buffer that shaders read and write as storage.
pub const BUFFER_USAGE_STORAGE_BUFFER: u32 = 0x20;

/// A buffer that indices are fetched from.
pub const BUFFER_USAGE_INDEX_BUFFER: u32 = 0x40;

/// The memory properties that every buffer is allocated with: the host can
/// map it, and its writes need no flush.
pub const BUFFER_MEMORY_FLAGS: u32 = 0x6;

/// Why a buffer could not be made.
#[derive(Debug, Copy, Clone, PartialEq, Eq, Structural)]
pub enum BufferCreationError {
    /// No memory type of the device serves the buffer.
    CouldNotFindMemoryIndex,
}

impl BufferCreationError {
    /// The error in words.
    pub fn message(&self) -> (message: String)
        ensures
            message@ == "could not find memory index for buffer"@,
    {
        match self {
            BufferCreationError::CouldNotFindMemoryIndex => {
                "could not find memory index for buffer".to_owned()
            },
        }
    }
}

/// Why data could not be copied to a buffer.
#[derive(Debug, Copy, Clone, PartialEq, Eq, Structural)]
pub enum MemoryCopyError {
    /// The buffer's memory is not mapped for the host.
    CannotTransferFromCPU,
}

impl MemoryCopyError {
    /// The error in words.
    pub fn message(&self) -> (message: String)
        ensures
            message@ == "buffer does not allow CPU -> GPU transfer"@,
    {
        match self {
            MemoryCopyError::CannotTransferFromCPU => {
                "buffer does not allow CPU -> GPU transfer".to_owned()
            },
        }
    }
}

/// What a buffer is for.
#[derive(Debug, Copy, Clone, PartialEq, Eq, Structural)]
pub enum BufferType {
    Index,
    Storage,
    /// Holds data on its way to an image.
    Staging,
}

impl BufferType {
    /// The usage flags of such a buffer.
    pub open spec fn spec_usage(&self) -> u32 {
        match self {
            BufferType::Index => BUFFER_USAGE_INDEX_BUFFER,
            BufferType::Storage => BUFFER_USAGE_STORAGE_BUFFER,
            BufferType::Staging => BUFFER_USAGE_TRANSFER_SRC,
        }
    }

    /// The usage flags of such a buffer.
    #[verifier::when_used_as_spec(spec_usage)]
    pub fn usage(&self) -> (usage: u32)
        ensures
            usage == self.spec_usage(),
    {
        match self {
            BufferType::Index => BUFFER_USAGE_INDEX_BUFFER,
            BufferType::Storage => BUFFER_USAGE_STORAGE_BUFFER,
            BufferType::Staging => BUFFER_USAGE_TRANSFER_SRC,
        }
    }
}

/// What the driver is asked to create a buffer with.
#[derive(Debug, Copy, Clone, PartialEq, Eq, Structural)]
pub struct BufferCreateInfo {
    pub size: u64,
    pub usage: u32,
    pub sharing_mode: i32,
}

/// A copy from the host into a buffer's mapped memory, from its start.
#[derive(Debug, Copy, Clone, PartialEq, Eq, Structural)]
pub struct MemoryCopy {
    pub memory: u64,
    /// The number of bytes to copy.
    pub size: u64,
}

/// A buffer with its memory.
#[derive(Debug, PartialEq, Eq)]
pub struct Buffer {
    pub buffer: u64,
    pub size: u64,
    pub memory: u64,
    /// Whether the memory is mapped for the host.
    pub mapped: bool,
}

impl Buffer {
    /// What the driver is asked to create the buffer with.
    pub fn create_info(size: u64, ty: BufferType) -> (info: BufferCreateInfo)
        ensures
            info == (BufferCreateInfo {
                size,
                usage: ty.spec_usage(),
                sharing_mode: SHARING_MODE_EXCLUSIVE,
            }),
    {
        BufferCreateInfo { size, usage: ty.usage(), sharing_mode: SHARING_MODE_EXCLUSIVE }
    }

    /// The memory properties that the buffer's memory must have.
    pub fn memory_flags() -> (flags: u32)
        ensures
            flags == BUFFER_MEMORY_FLAGS,
            flags == MEMORY_PROPERTY_HOST_VISIBLE | MEMORY_PROPERTY_HOST_COHERENT,
            flags & MEMORY_PROPERTY_HOST_VISIBLE == MEMORY_PROPERTY_HOST_VISIBLE,
    {
        assert(0x2u32 | 0x4u32 == 0x6u32) by (bit_vector);
        assert(0x6u32 & 0x2u32 == 0x2u32) by (bit_vector);
        MEMORY_PROPERTY_HOST_VISIBLE | MEMORY_PROPERTY_HOST_COHERENT
    }

    /// The memory to allocate for a buffer with the requirements
    /// `requirements`: as much as it asks for, of the first memory type that it
    /// accepts and that the host can map without flushing. Fails where the
    /// device has none.
    pub fn allocate_info(
        requirements: &MemoryRequirements,
        memory_properties: &PhysicalDeviceMemoryProperties,
    ) -> (info: Result<MemoryAllocateInfo, Error>)
        requires
            memory_properties.memory_types@.len() <= MAX_MEMORY_TYPES,
        ensures
            match info {
                Ok(info) => {
                    &&& info.allocation_size == requirements.size
                    &&& memory_type_suits(
                        requirements.memory_type_bits,
                        memory_properties.memory_types@,
                        BUFFER_MEMORY_FLAGS,
                        info.memory_type_index as int,
                    )
                    &&& forall|j: int|
                        0 <= j < info.memory_type_index ==> !memory_type_suits(
                            requirements.memory_type_bits,
                            memory_properties.memory_types@,
                            BUFFER_MEMORY_FLAGS,
                            j,
                        )
                },
                Err(e) => {
                    &&& e == Error::BufferCreation(BufferCreationError::CouldNotFindMemoryIndex)
                    &&& forall|j: int|
                        !memory_type_suits(
                            requirements.memory_type_bits,
                            memory_properties.memory_types@,
                            BUFFER_MEMORY_FLAGS,
                            j,
                        )
                },
            },
    {
        let flags: u32 = Buffer::memory_flags();
        match find_memory_type_index(requirements, memory_properties, flags) {
            Some(index) => Ok(
                MemoryAllocateInfo { allocation_size: requirements.size, memory_type_index: index },
            ),
            None => Err(Error::BufferCreation(BufferCreationError::CouldNotFindMemoryIndex)),
        }
    }

    /// The buffer made of what the driver created and bound. Its memory is
    /// host-visible, so it is mapped, whole, as soon as it is bound.
    pub fn with_size(buffer: u64, memory: u64, size: u64) -> (made: Buffer)
        ensures
            made == (Buffer { buffer, size, memory, mapped: true }),
    {
        Buffer { buffer, size, memory, mapped: true }
    }

    /// The buffer that the driver created and bound for `data`, as large as
    /// the bytes that the items of `data` take, with the copy that puts the
    /// data into it.
    pub fn from_data<T: Copy>(buffer: u64, memory: u64, data: &[T]) -> (made: (Buffer, MemoryCopy))
        ensures
            made.0 == (Buffer {
                buffer,
                size: spec_size_of_val::<[T]>(data) as u64,
                memory,
                mapped: true,
            }),
            made.1 == (MemoryCopy { memory, size: spec_size_of_val::<[T]>(data) as u64 }),
    {
        let size: u64 = size_of_slice(data);
        (Buffer::with_size(buffer, memory, size), MemoryCopy { memory, size })
    }

    /// The copy that puts `data` at the start of the buffer's memory. Fails
    /// where the memory is not mapped for the host.
    pub fn copy_data<T: Copy>(&self, data: &[T]) -> (copy: Result<MemoryCopy, MemoryCopyError>)
        ensures
            self.mapped ==> copy == Ok::<MemoryCopy, MemoryCopyError>(
                MemoryCopy { memory: self.memory, size: spec_size_of_val::<[T]>(data) as u64 },
            ),
            !self.mapped ==> copy == Err::<MemoryCopy, MemoryCopyError>(
                MemoryCopyError::CannotTransferFromCPU,
            ),
    {
        if self.mapped {
            Ok(MemoryCopy { memory: self.memory, size: size_of_slice(data) })
        } else {
            Err(MemoryCopyError::CannotTransferFromCPU)
        }
    }

    /// Gives the buffer up: the calls that destroy it, then free its memory.
    pub fn clean(&self) -> (calls: Vec<DriverCall>)
        ensures
            calls@ == seq![
                DriverCall::DestroyBuffer { buffer: self.buffer },
                DriverCall::FreeMemory { memory: self.memory },
            ],
    {
        let calls = vec![
            DriverCall::DestroyBuffer { buffer: self.buffer },
            DriverCall::FreeMemory { memory: self.memory },
        ];
        calls
    }
}

} // verus!
