//! The choice of a memory type, and the size of what is copied to a buffer.
use vstd::layout::spec_size_of_val;
use vstd::prelude::*;

verus! {

/// Memory that is local to the device.
pub const MEMORY_PROPERTY_DEVICE_LOCAL: u32 = 0x1;

/// Memory that the host can map.
pub const MEMORY_PROPERTY_HOST_VISIBLE: u32 = 0x2;

/// Memory whose host writes need no flush.
pub const MEMORY_PROPERTY_HOST_COHERENT: u32 = 0x4;

/// The most memory types that a device reports.
pub const MAX_MEMORY_TYPES: usize = 32;

/// What a resource asks of the memory that it is bound to.
#[derive(Debug, Copy, Clone, PartialEq, Eq, Structural)]
pub struct MemoryRequirements {
    pub size: u64,
    pub alignment: u64,
    /// Bit `i` is set where the memory type of index `i` may hold the resource.
    pub memory_type_bits: u32,
}

/// One of the device's memory types.
#[derive(Debug, Copy, Clone, PartialEq, Eq, Structural)]
pub struct MemoryType {
    pub property_flags: u32,
    pub heap_index: u32,
}

/// The memory types that the device reports, in the driver's order.
#[derive(Debug, Clone, PartialEq, Eq)]
pub struct PhysicalDeviceMemoryProperties {
    pub memory_types: Vec<MemoryType>,
}

/// Whether the memory type of index `index` may hold a resource with the
/// type bits `bits`, and has every property of `flags`.
pub open spec fn memory_type_suits(
    bits: u32,
    types: Seq<MemoryType>,
    flags: u32,
    index: int,
) -> bool {
    &&& 0 <= index < types.len()
    &&& index < 32
    &&& (1u32 << (index as u32)) & bits != 0
    &&& types[index].property_flags & flags == flags
}

/// The first memory type, in the driver's order, that the resource accepts
/// and that has every property of `flags`; `None` where there is none.
pub fn find_memory_type_index(
    memory_req: &MemoryRequirements,
    memory_prop: &PhysicalDeviceMemoryProperties,
    flags: u32,
) -> (found: Option<u32>)
    requires
        memory_prop.memory_types@.len() <= MAX_MEMORY_TYPES,
    ensures
        match found {
            Some(index) => {
                &&& memory_type_suits(
                    memory_req.memory_type_bits,
                    memory_prop.memory_types@,
                    flags,
                    index as int,
                )
                &&& forall|j: int|
                    0 <= j < index ==> !memory_type_suits(
                        memory_req.memory_type_bits,
                        memory_prop.memory_types@,
                        flags,
                        j,
                    )
            },
            None => forall|j: int|
                !memory_type_suits(
                    memory_req.memory_type_bits,
                    memory_prop.memory_types@,
                    flags,
                    j,
                ),
        },
{
    let mut index: usize = 0;
    while index < memory_prop.memory_types.len()
        invariant
            index <= memory_prop.memory_types@.len() <= MAX_MEMORY_TYPES,
            forall|j: int|
                0 <= j < index ==> !memory_type_suits(
                    memory_req.memory_type_bits,
                    memory_prop.memory_types@,
                    flags,
                    j,
                ),
        decreases memory_prop.memory_types@.len() - index,
    {
        let bit: u32 = 1u32 << (index as u32);
        if bit & memory_req.memory_type_bits != 0 && memory_prop.memory_types[index].property_flags
            & flags == flags {
            return Some(index as u32);
        }
        index += 1;
    }
    None
}

/// The number of bytes that the items of `data` take.
pub fn size_of_slice<T>(data: &[T]) -> (size: u64)
    ensures
        size == spec_size_of_val::<[T]>(data),
{
    std::mem::size_of_val(data) as u64
}

} // verus!
