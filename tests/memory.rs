use ash::vk;
use vkcore::errors::{ErrorKind, VulkanError};
use vkcore::memory::{
    allocate, find_memory_type, plan_buffer, plan_upload, BufferPlan, BufferType,
    MemoryRequirements, BUFFER_INDEX, BUFFER_RAY_TRACING, BUFFER_STORAGE, BUFFER_TRANSFER_DST,
    BUFFER_TRANSFER_SRC, BUFFER_UNIFORM, BUFFER_VERTEX, MEMORY_DEVICE_LOCAL, MEMORY_HOST_COHERENT,
    MEMORY_HOST_VISIBLE,
};

const HV_HC: u32 = MEMORY_HOST_VISIBLE | MEMORY_HOST_COHERENT;

fn table() -> Vec<u32> {
    vec![MEMORY_DEVICE_LOCAL, HV_HC, MEMORY_DEVICE_LOCAL | HV_HC, MEMORY_HOST_VISIBLE]
}

#[test]
fn memory_type_is_first_allowed_with_all_properties() {
    assert_eq!(find_memory_type(&table(), 0b1111, MEMORY_DEVICE_LOCAL), Some(0));
    assert_eq!(find_memory_type(&table(), 0b1111, HV_HC), Some(1));
    assert_eq!(find_memory_type(&table(), 0b1110, MEMORY_DEVICE_LOCAL), Some(2));
    assert_eq!(find_memory_type(&table(), 0b1000, MEMORY_HOST_VISIBLE), Some(3));
    assert_eq!(find_memory_type(&table(), 0b1000, HV_HC), None);
    assert_eq!(find_memory_type(&table(), 0, 0), None);
    assert_eq!(find_memory_type(&vec![], 0xffff_ffff, 0), None);
}

#[test]
fn memory_type_beyond_the_filter_width_is_never_chosen() {
    let types = vec![0u32; 40];
    assert_eq!(find_memory_type(&types, 0, 0), None);
    assert_eq!(find_memory_type(&types, 1 << 31, 0), Some(31));
}

#[test]
fn memory_type_selection_is_deterministic() {
    let t = table();
    for filter in [0u32, 1, 2, 5, 0b1100, 0xffff_ffff] {
        for props in [0u32, MEMORY_DEVICE_LOCAL, HV_HC, MEMORY_HOST_VISIBLE] {
            assert_eq!(find_memory_type(&t, filter, props), find_memory_type(&t, filter, props));
        }
    }
}

#[test]
fn allocation_reports_block() {
    let req = MemoryRequirements { size: 4096, memory_type_bits: 0b0110 };
    let b = allocate(&table(), &req, MEMORY_DEVICE_LOCAL).unwrap();
    assert_eq!(b.memory_type_index, 2);
    assert_eq!(b.size, 4096);
    assert!(b.host_visible);
    let b = allocate(&table(), &MemoryRequirements { size: 16, memory_type_bits: 1 }, 0).unwrap();
    assert!(!b.host_visible);
    let e = allocate(&table(), &MemoryRequirements { size: 16, memory_type_bits: 1 }, HV_HC);
    match e {
        Err(err) => {
            assert!(matches!(err, VulkanError::MemoryTypeError(_)));
            assert_eq!(err.kind(), ErrorKind::MemoryType);
        }
        Ok(_) => panic!("no memory type fits"),
    }
}

#[test]
fn zero_sized_buffer_is_refused() {
    for ty in [BufferType::Vertex, BufferType::Uniform, BufferType::Staging] {
        assert!(matches!(plan_buffer(ty, 0), Err(VulkanError::VertexBufferCreationError(_))));
        assert!(matches!(plan_upload(ty, 0, 0), Err(VulkanError::VertexBufferCreationError(_))));
    }
}

#[test]
fn buffer_plan_by_kind() {
    assert_eq!(
        plan_buffer(BufferType::Vertex, 64).unwrap(),
        BufferPlan {
            size: 64,
            usage: BUFFER_VERTEX | BUFFER_TRANSFER_DST | BUFFER_STORAGE,
            memory_properties: MEMORY_DEVICE_LOCAL
        }
    );
    assert_eq!(BufferType::Index.usage(), BUFFER_INDEX | BUFFER_TRANSFER_DST | BUFFER_STORAGE);
    assert_eq!(BufferType::Uniform.usage(), BUFFER_UNIFORM | BUFFER_TRANSFER_DST);
    assert_eq!(BufferType::Uniform.memory_properties(), HV_HC);
    assert_eq!(BufferType::Staging.usage(), BUFFER_TRANSFER_SRC);
    assert_eq!(BufferType::Staging.memory_properties(), HV_HC);
    assert_eq!(BufferType::Storage.usage(), BUFFER_STORAGE);
    assert_eq!(BufferType::RayTracing.usage(), BUFFER_RAY_TRACING);
    assert_eq!(BufferType::RayTracing.memory_properties(), MEMORY_DEVICE_LOCAL);
    assert_eq!(BufferType::RayTracingInstance.memory_properties(), HV_HC);
    assert_eq!(BufferType::ShaderBindingTable.memory_properties(), MEMORY_HOST_VISIBLE);
}

#[test]
fn staged_upload_plan() {
    let p = plan_upload(BufferType::Storage, 128, 128).unwrap();
    assert_eq!(
        p.staging,
        BufferPlan { size: 128, usage: BUFFER_TRANSFER_SRC, memory_properties: HV_HC }
    );
    assert_eq!(p.destination.usage, BUFFER_STORAGE | BUFFER_TRANSFER_DST);
    assert_eq!(p.destination.memory_properties, HV_HC);
    assert!(matches!(
        plan_upload(BufferType::Storage, 128, 127),
        Err(VulkanError::VertexBufferCreationError(_))
    ));
    assert!(plan_upload(BufferType::Vertex, 8, 100).is_ok());
}

#[test]
fn memory_and_usage_constants_match_vulkan() {
    assert_eq!(MEMORY_DEVICE_LOCAL, vk::MemoryPropertyFlags::DEVICE_LOCAL.as_raw());
    assert_eq!(MEMORY_HOST_VISIBLE, vk::MemoryPropertyFlags::HOST_VISIBLE.as_raw());
    assert_eq!(MEMORY_HOST_COHERENT, vk::MemoryPropertyFlags::HOST_COHERENT.as_raw());
    assert_eq!(BUFFER_TRANSFER_SRC, vk::BufferUsageFlags::TRANSFER_SRC.as_raw());
    assert_eq!(BUFFER_TRANSFER_DST, vk::BufferUsageFlags::TRANSFER_DST.as_raw());
    assert_eq!(BUFFER_UNIFORM, vk::BufferUsageFlags::UNIFORM_BUFFER.as_raw());
    assert_eq!(BUFFER_STORAGE, vk::BufferUsageFlags::STORAGE_BUFFER.as_raw());
    assert_eq!(BUFFER_INDEX, vk::BufferUsageFlags::INDEX_BUFFER.as_raw());
    assert_eq!(BUFFER_VERTEX, vk::BufferUsageFlags::VERTEX_BUFFER.as_raw());
    assert_eq!(BUFFER_RAY_TRACING, vk::BufferUsageFlags::RAY_TRACING_NV.as_raw());
}
