//! Resource allocation decisions: memory-type selection and the
//! staged-upload protocol for filling device-local buffers.

use vstd::prelude::*;
use crate::types::{
    BUFFER_USAGE_TRANSFER_DST, BUFFER_USAGE_TRANSFER_SRC, MEMORY_DEVICE_LOCAL,
    MEMORY_HOST_COHERENT, MEMORY_HOST_VISIBLE,
};

verus! {

/// One entry of the device's memory-type table: its property flag bits.
#[derive(Clone, Copy, PartialEq, Eq, Structural, Debug)]
pub struct MemoryType {
    pub property_flags: u32,
}

/// Memory type `i` suits a resource whose requirements set bit `i` of
/// `type_bits` and whose requested `properties` the type all offers.
pub open spec fn memory_type_matches(
    types: Seq<MemoryType>,
    type_bits: u32,
    properties: u32,
    i: int,
) -> bool {
    &&& 0 <= i < types.len()
    &&& i < 32
    &&& (type_bits >> (i as u32)) & 1 == 1
    &&& types[i].property_flags & properties == properties
}

/// Index of the first memory type satisfying both the resource's
/// requirement bits and the requested property flags; `None` when the
/// device offers none (a fatal allocation error for the caller).
pub fn find_memory_type(types: &Vec<MemoryType>, type_bits: u32, properties: u32) -> (r: Option<
    u32,
>)
    requires
        types@.len() <= 32,
    ensures
        r is Some <==> exists|i: int| memory_type_matches(types@, type_bits, properties, i),
        r matches Some(i) ==> memory_type_matches(types@, type_bits, properties, i as int)
            && forall|j: int|
            0 <= j < i ==> !memory_type_matches(types@, type_bits, properties, j),
{
    let n = types.len();
    let mut i: usize = 0;
    while i < n
        invariant
            0 <= i <= n,
            n == types@.len() <= 32,
            forall|j: int| 0 <= j < i ==> !memory_type_matches(types@, type_bits, properties, j),
        decreases n - i,
    {
        if (type_bits >> (i as u32)) & 1 == 1 && types[i].property_flags & properties == properties
        {
            assert(memory_type_matches(types@, type_bits, properties, i as int));
            return Some(i as u32);
        }
        i = i + 1;
    }
    None
}

/// Requested shape of one buffer allocation.
#[derive(Clone, Copy, PartialEq, Eq, Structural, Debug)]
pub struct BufferSpec {
    pub size: u64,
    pub usage: u32,
    pub memory_properties: u32,
}

/// The two allocations and one transfer of a staged upload.
#[derive(Clone, Copy, PartialEq, Eq, Structural, Debug)]
pub struct StagedBufferPlan {
    /// Host-visible, coherent source the CPU fills directly.
    pub staging: BufferSpec,
    /// Device-local destination the GPU reads afterwards.
    pub device: BufferSpec,
    /// Bytes moved staging -> device by the one-time transfer command.
    pub copy_size: u64,
}

pub open spec fn spec_staged_plan(size: u64, usage: u32) -> StagedBufferPlan {
    StagedBufferPlan {
        staging: BufferSpec {
            size,
            usage: BUFFER_USAGE_TRANSFER_SRC,
            memory_properties: MEMORY_HOST_VISIBLE | MEMORY_HOST_COHERENT,
        },
        device: BufferSpec {
            size,
            usage: BUFFER_USAGE_TRANSFER_DST | usage,
            memory_properties: MEMORY_DEVICE_LOCAL,
        },
        copy_size: size,
    }
}

/// Staged-upload protocol for `size` bytes destined for a device-local
/// buffer used as `usage`: stage host-visibly, copy the full size once.
pub fn staged_buffer_plan(size: u64, usage: u32) -> (r: StagedBufferPlan)
    ensures
        r == spec_staged_plan(size, usage),
{
    StagedBufferPlan {
        staging: BufferSpec {
            size,
            usage: BUFFER_USAGE_TRANSFER_SRC,
            memory_properties: MEMORY_HOST_VISIBLE | MEMORY_HOST_COHERENT,
        },
        device: BufferSpec {
            size,
            usage: BUFFER_USAGE_TRANSFER_DST | usage,
            memory_properties: MEMORY_DEVICE_LOCAL,
        },
        copy_size: size,
    }
}

/// Tiling of an image allocation.
#[derive(Clone, Copy, PartialEq, Eq, Structural, Debug)]
pub enum ImageTiling {
    Optimal,
    Linear,
}

/// Requested shape of one image allocation.
#[derive(Clone, Copy, PartialEq, Eq, Structural, Debug)]
pub struct ImageSpec {
    pub width: u32,
    pub height: u32,
    pub mip_levels: u32,
    pub array_layers: u32,
    pub format: crate::types::Format,
    pub tiling: ImageTiling,
    pub usage: u32,
    pub memory_properties: u32,
    pub sample_count: u32,
    pub cube_compatible: bool,
}

} // verus!
