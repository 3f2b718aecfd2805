//! Typed GPU memory: buffer kinds, their usage and memory properties, and
//! the choice of a memory type for an allocation.
use vstd::prelude::*;
use crate::errors::VulkanError;

verus! {

/// `VK_MEMORY_PROPERTY_DEVICE_LOCAL_BIT`.
pub const MEMORY_DEVICE_LOCAL: u32 = 0x1;
/// `VK_MEMORY_PROPERTY_HOST_VISIBLE_BIT`.
pub const MEMORY_HOST_VISIBLE: u32 = 0x2;
/// `VK_MEMORY_PROPERTY_HOST_COHERENT_BIT`.
pub const MEMORY_HOST_COHERENT: u32 = 0x4;

/// `VK_BUFFER_USAGE_TRANSFER_SRC_BIT`.
pub const BUFFER_TRANSFER_SRC: u32 = 0x1;
/// `VK_BUFFER_USAGE_TRANSFER_DST_BIT`.
pub const BUFFER_TRANSFER_DST: u32 = 0x2;
/// `VK_BUFFER_USAGE_UNIFORM_BUFFER_BIT`.
pub const BUFFER_UNIFORM: u32 = 0x10;
/// `VK_BUFFER_USAGE_STORAGE_BUFFER_BIT`.
pub const BUFFER_STORAGE: u32 = 0x20;
/// `VK_BUFFER_USAGE_INDEX_BUFFER_BIT`.
pub const BUFFER_INDEX: u32 = 0x40;
/// `VK_BUFFER_USAGE_VERTEX_BUFFER_BIT`.
pub const BUFFER_VERTEX: u32 = 0x80;
/// `VK_BUFFER_USAGE_RAY_TRACING_BIT_NV`.
pub const BUFFER_RAY_TRACING: u32 = 0x400;

/// The number of memory types a device can report at most
/// (`VK_MAX_MEMORY_TYPES`).
pub const MAX_MEMORY_TYPES: usize = 32;

/// What a buffer is for; it fixes the buffer's usage and the properties of
/// its memory.
#[derive(Debug, Clone, Copy, PartialEq, Eq, Structural)]
pub enum BufferType {
    Index,
    RayTracing,
    RayTracingInstance,
    ShaderBindingTable,
    Staging,
    Storage,
    Uniform,
    Vertex,
}

/// What a device asks of the memory bound to a resource.
#[derive(Debug, Clone, Copy, PartialEq, Eq, Structural)]
pub struct MemoryRequirements {
    pub size: u64,
    /// Bit `i` is set when memory type `i` may back the resource.
    pub memory_type_bits: u32,
}

/// A device allocation bound to one buffer or image.
#[derive(Debug, Clone, Copy, PartialEq, Eq, Structural)]
pub struct MemoryBlock {
    pub size: u64,
    pub memory_type_index: u32,
    pub host_visible: bool,
}

/// A buffer to create: its size, usage mask and memory property mask.
#[derive(Debug, Clone, Copy, PartialEq, Eq, Structural)]
pub struct BufferPlan {
    pub size: u64,
    pub usage: u32,
    pub memory_properties: u32,
}

/// The two buffers of a staged upload: a host-visible source the caller's
/// bytes are copied into, and the destination the GPU copies them to.
#[derive(Debug, Clone, Copy, PartialEq, Eq, Structural)]
pub struct UploadPlan {
    pub staging: BufferPlan,
    pub destination: BufferPlan,
}

impl BufferType {
    pub open spec fn usage_spec(self) -> u32 {
        match self {
            BufferType::Index => BUFFER_INDEX | BUFFER_TRANSFER_DST | BUFFER_STORAGE,
            BufferType::RayTracing => BUFFER_RAY_TRACING,
            BufferType::RayTracingInstance => BUFFER_RAY_TRACING,
            BufferType::ShaderBindingTable => BUFFER_TRANSFER_SRC,
            BufferType::Staging => BUFFER_TRANSFER_SRC,
            BufferType::Storage => BUFFER_STORAGE,
            BufferType::Uniform => BUFFER_UNIFORM | BUFFER_TRANSFER_DST,
            BufferType::Vertex => BUFFER_VERTEX | BUFFER_TRANSFER_DST | BUFFER_STORAGE,
        }
    }

    /// GPU-resident kinds live in device-local memory; kinds the CPU writes
    /// live in host-visible, coherent memory.
    pub open spec fn memory_properties_spec(self) -> u32 {
        match self {
            BufferType::Index => MEMORY_DEVICE_LOCAL,
            BufferType::RayTracing => MEMORY_DEVICE_LOCAL,
            BufferType::RayTracingInstance => MEMORY_HOST_VISIBLE | MEMORY_HOST_COHERENT,
            BufferType::ShaderBindingTable => MEMORY_HOST_VISIBLE,
            BufferType::Staging => MEMORY_HOST_VISIBLE | MEMORY_HOST_COHERENT,
            BufferType::Storage => MEMORY_HOST_VISIBLE | MEMORY_HOST_COHERENT,
            BufferType::Uniform => MEMORY_HOST_VISIBLE | MEMORY_HOST_COHERENT,
            BufferType::Vertex => MEMORY_DEVICE_LOCAL,
        }
    }

    /// The usage mask a buffer of this kind is created with.
    pub fn usage(&self) -> (r: u32)
        ensures
            r == self.usage_spec(),
    {
        match self {
            BufferType::Index => BUFFER_INDEX | BUFFER_TRANSFER_DST | BUFFER_STORAGE,
            BufferType::RayTracing => BUFFER_RAY_TRACING,
            BufferType::RayTracingInstance => BUFFER_RAY_TRACING,
            BufferType::ShaderBindingTable => BUFFER_TRANSFER_SRC,
            BufferType::Staging => BUFFER_TRANSFER_SRC,
            BufferType::Storage => BUFFER_STORAGE,
            BufferType::Uniform => BUFFER_UNIFORM | BUFFER_TRANSFER_DST,
            BufferType::Vertex => BUFFER_VERTEX | BUFFER_TRANSFER_DST | BUFFER_STORAGE,
        }
    }

    /// The memory properties a buffer of this kind needs.
    pub fn memory_properties(&self) -> (r: u32)
        ensures
            r == self.memory_properties_spec(),
    {
        match self {
            BufferType::Index => MEMORY_DEVICE_LOCAL,
            BufferType::RayTracing => MEMORY_DEVICE_LOCAL,
            BufferType::RayTracingInstance => MEMORY_HOST_VISIBLE | MEMORY_HOST_COHERENT,
            BufferType::ShaderBindingTable => MEMORY_HOST_VISIBLE,
            BufferType::Staging => MEMORY_HOST_VISIBLE | MEMORY_HOST_COHERENT,
            BufferType::Storage => MEMORY_HOST_VISIBLE | MEMORY_HOST_COHERENT,
            BufferType::Uniform => MEMORY_HOST_VISIBLE | MEMORY_HOST_COHERENT,
            BufferType::Vertex => MEMORY_DEVICE_LOCAL,
        }
    }
}

/// Memory type `i` of the table may back a resource whose requirements
/// allow the types in `type_filter`, and has every property asked for.
pub open spec fn memory_type_fits(types: Seq<u32>, i: int, type_filter: u32, properties: u32) -> bool {
    &&& 0 <= i < types.len()
    &&& i < MAX_MEMORY_TYPES
    &&& type_filter & (1u32 << (i as u32)) != 0
    &&& types[i] & properties == properties
}

/// `i` is the first memory type that fits.
pub open spec fn is_first_fit(types: Seq<u32>, i: int, type_filter: u32, properties: u32) -> bool {
    &&& memory_type_fits(types, i, type_filter, properties)
    &&& forall|j: int| 0 <= j < i ==> !memory_type_fits(types, j, type_filter, properties)
}

/// Walks the device's memory types (their property masks, in index order)
/// and returns the first one allowed by `type_filter` whose properties
/// include all of `properties`; `None` when no type fits.
pub fn find_memory_type(memory_types: &Vec<u32>, type_filter: u32, properties: u32) -> (r: Option<u32>)
    ensures
        r matches Some(i) ==> is_first_fit(memory_types@, i as int, type_filter, properties),
        r is None ==> forall|j: int| !memory_type_fits(memory_types@, j, type_filter, properties),
{
    let mut i: usize = 0;
    while i < memory_types.len() && i < MAX_MEMORY_TYPES
        invariant
            i <= MAX_MEMORY_TYPES,
            i <= memory_types@.len(),
            forall|j: int| 0 <= j < i ==> !memory_type_fits(memory_types@, j, type_filter, properties),
        decreases memory_types@.len() - i,
    {
        if type_filter & (1u32 << (i as u32)) != 0 && memory_types[i] & properties == properties {
            return Some(i as u32);
        }
        i = i + 1;
    }
    None
}

/// Chooses the memory for a resource: the first fitting memory type (see
/// `find_memory_type`) with the required size. Fails with a memory-type
/// error when no type fits.
pub fn allocate(memory_types: &Vec<u32>, requirements: &MemoryRequirements, properties: u32) -> (r: Result<
    MemoryBlock,
    VulkanError,
>)
    ensures
        r matches Ok(b) ==> is_first_fit(
            memory_types@,
            b.memory_type_index as int,
            requirements.memory_type_bits,
            properties,
        ) && b.size == requirements.size && b.host_visible == (memory_types@[b.memory_type_index as int]
            & MEMORY_HOST_VISIBLE != 0),
        r is Err ==> (r matches Err(VulkanError::MemoryTypeError(_))) && forall|j: int|
            !memory_type_fits(memory_types@, j, requirements.memory_type_bits, properties),
{
    match find_memory_type(memory_types, requirements.memory_type_bits, properties) {
        Some(i) => Ok(
            MemoryBlock {
                size: requirements.size,
                memory_type_index: i,
                host_visible: memory_types[i as usize] & MEMORY_HOST_VISIBLE != 0,
            },
        ),
        None => Err(VulkanError::MemoryTypeError("cannot find a memory type".to_string())),
    }
}

/// The buffer for a kind and a size. A buffer of size 0 is refused with a
/// buffer creation error: Vulkan does not allow empty buffers.
pub fn plan_buffer(ty: BufferType, size: u64) -> (r: Result<BufferPlan, VulkanError>)
    ensures
        size == 0 ==> r matches Err(VulkanError::VertexBufferCreationError(_)),
        size > 0 ==> r == Ok::<BufferPlan, VulkanError>(
            BufferPlan { size, usage: ty.usage_spec(), memory_properties: ty.memory_properties_spec() },
        ),
{
    if size == 0 {
        return Err(VulkanError::VertexBufferCreationError("a buffer cannot be empty".to_string()));
    }
    Ok(BufferPlan { size, usage: ty.usage(), memory_properties: ty.memory_properties() })
}

/// The buffers of a staged upload of `size` bytes into a buffer of kind
/// `ty`, from caller data of `data_len` bytes. The staging buffer is a
/// host-visible, coherent transfer source; the destination has the kind's
/// usage plus transfer-destination and the kind's memory properties. Fails
/// with a buffer creation error when `size` is 0 or the data is shorter than
/// `size`.
pub fn plan_upload(ty: BufferType, size: u64, data_len: usize) -> (r: Result<UploadPlan, VulkanError>)
    ensures
        size == 0 || (data_len as int) < (size as int) ==> r matches Err(
            VulkanError::VertexBufferCreationError(_),
        ),
        size > 0 && (data_len as int) >= (size as int) ==> r == Ok::<UploadPlan, VulkanError>(
            UploadPlan {
                staging: BufferPlan {
                    size,
                    usage: BUFFER_TRANSFER_SRC,
                    memory_properties: MEMORY_HOST_VISIBLE | MEMORY_HOST_COHERENT,
                },
                destination: BufferPlan {
                    size,
                    usage: ty.usage_spec() | BUFFER_TRANSFER_DST,
                    memory_properties: ty.memory_properties_spec(),
                },
            },
        ),
{
    if size == 0 {
        return Err(VulkanError::VertexBufferCreationError("a buffer cannot be empty".to_string()));
    }
    if (data_len as u64) < size {
        return Err(
            VulkanError::VertexBufferCreationError(
                "the data is shorter than the buffer".to_string(),
            ),
        );
    }
    let staging = plan_buffer(BufferType::Staging, size)?;
    Ok(
        UploadPlan {
            staging,
            destination: BufferPlan {
                size,
                usage: ty.usage() | BUFFER_TRANSFER_DST,
                memory_properties: ty.memory_properties(),
            },
        },
    )
}

/// Memory-type selection is a function of the type filter, the properties
/// and the device's table: at most one index is the first fitting one, so
/// two selections on the same inputs agree.
pub proof fn lemma_memory_choice_deterministic(
    types: Seq<u32>,
    type_filter: u32,
    properties: u32,
    a: int,
    b: int,
)
    requires
        is_first_fit(types, a, type_filter, properties),
        is_first_fit(types, b, type_filter, properties),
    ensures
        a == b,
{
}

} // verus!
