use renderer::gpu::types::{
    DestroyAction, DeviceLimits, MemoryProperties, MemoryRequirements, MemoryType,
    PhysicalProperties, MEMORY_DEVICE_LOCAL, MEMORY_HOST_COHERENT, MEMORY_HOST_VISIBLE,
    SHARING_EXCLUSIVE, USAGE_STORAGE_BUFFER, USAGE_UNIFORM_BUFFER, USAGE_VERTEX_BUFFER,
};
use renderer::gpuv2::buffer::{find_memorytype_index, Buffer, BufferBacking};
use renderer::gpuv2::Cleanup;

#[derive(Copy, Clone, Debug, PartialEq)]
struct Transform16 {
    m: [u32; 4],
}

fn props(uniform_align: u64, storage_align: u64, texel_align: u64) -> renderer::gpuv2::device_properties::DeviceProperties {
    renderer::gpuv2::device_properties::DeviceProperties {
        physical_memory: MemoryProperties {
            memory_types: vec![
                MemoryType { property_flags: MEMORY_DEVICE_LOCAL },
                MemoryType { property_flags: MEMORY_HOST_VISIBLE | MEMORY_HOST_COHERENT },
            ],
        },
        physical_props: PhysicalProperties {
            limits: DeviceLimits {
                min_uniform_buffer_offset_alignment: uniform_align,
                min_storage_buffer_offset_alignment: storage_align,
                min_texel_buffer_offset_alignment: texel_align,
            },
        },
    }
}

fn backing() -> BufferBacking {
    BufferBacking {
        buffer: 71,
        device_memory: 72,
        memory_req: MemoryRequirements { size: 4096, alignment: 64, memory_type_bits: 0b11 },
    }
}

#[test]
fn entry_size_rises_to_the_dynamic_alignment() {
    let b: Buffer<u32> = Buffer::new(&props(64, 32, 16));
    assert_eq!(b.entry_size(), 64);
}

#[test]
fn entry_size_keeps_large_types_whole() {
    let b: Buffer<Transform16> = Buffer::new(&props(8, 8, 8));
    assert_eq!(b.entry_size(), 16);
    assert!(b.entry_size() >= std::mem::size_of::<Transform16>() as u64);
    assert_eq!(b.entry_size() % 8, 0);
}

#[test]
fn info_sizes_by_stride_times_count() {
    let b: Buffer<Transform16> = Buffer::new(&props(64, 64, 64));
    let data = [Transform16 { m: [0; 4] }; 3];
    let info = b.info(&data);
    assert_eq!(info.size, 64 * 3);
    assert_eq!(info.usage, USAGE_UNIFORM_BUFFER);
    assert_eq!(info.sharing_mode, SHARING_EXCLUSIVE);
}

#[test]
fn align_buffer_takes_the_usage_class_maximum() {
    let b: Buffer<u32> = Buffer::new(&props(64, 128, 16)).usage(
        USAGE_UNIFORM_BUFFER | USAGE_STORAGE_BUFFER,
    );
    assert_eq!(b.align_buffer(), 128);
    let v: Buffer<u32> = Buffer::new(&props(64, 128, 16)).usage(USAGE_VERTEX_BUFFER);
    assert_eq!(v.align_buffer(), std::mem::align_of::<u32>() as u64);
}

#[test]
fn allocate_twice_is_a_no_op() {
    let data = [7u32, 8, 9];
    let b: Buffer<u32> = Buffer::new(&props(64, 64, 64));
    let bound = b.allocate(&data, backing());
    assert_eq!(bound.buffer, Some(71));
    assert_eq!(bound.device_memory, Some(72));
    assert_eq!(bound.entries, 3);
    let other = BufferBacking {
        buffer: 99,
        device_memory: 98,
        memory_req: MemoryRequirements { size: 1, alignment: 1, memory_type_bits: 1 },
    };
    let again = bound.allocate(&data, other);
    assert_eq!(again.buffer, Some(71));
    assert_eq!(again.device_memory, Some(72));
    assert_eq!(again.memory_req.unwrap().size, 4096);
    assert_eq!(again.entries, 3);
}

#[test]
fn copy_then_mapping_returns_the_payload() {
    let data = [
        Transform16 { m: [1, 2, 3, 4] },
        Transform16 { m: [5, 6, 7, 8] },
    ];
    let b: Buffer<Transform16> = Buffer::new(&props(64, 64, 64));
    let mut bound = b.allocate(&data, backing());
    bound.copy(&data);
    assert_eq!(bound.mapped().as_slice(), &data);
    let shorter = [Transform16 { m: [9, 9, 9, 9] }];
    bound.copy(&shorter);
    assert_eq!(bound.mapped().as_slice(), &shorter);
}

#[test]
fn load_binds_and_fills_in_one_call() {
    let data = [1u32, 2, 3, 4];
    let b: Buffer<u32> = Buffer::new(&props(4, 4, 4));
    let loaded = b.load(&data, backing());
    assert_eq!(loaded.buffer, Some(71));
    assert_eq!(loaded.entries, 4);
    assert_eq!(loaded.mapped().as_slice(), &data);
}

#[test]
fn builder_chain_sets_the_policy() {
    let b: Buffer<u32> = Buffer::new(&props(64, 64, 64))
        .stages(0x1)
        .binding(2)
        .usage(USAGE_STORAGE_BUFFER)
        .descriptor_type(7)
        .sharing_mode(SHARING_EXCLUSIVE)
        .memory_flags(MEMORY_HOST_VISIBLE)
        .vertex_input_attribute(0, 0, 12, 106);
    assert_eq!(b.stages, 0x1);
    assert_eq!(b.binding, Some(2));
    assert_eq!(b.usage, USAGE_STORAGE_BUFFER);
    assert_eq!(b.descriptor_type, 7);
    assert_eq!(b.memory_flags, MEMORY_HOST_VISIBLE);
    assert_eq!(b.attributes.len(), 1);
    assert_eq!(b.attributes[0].offset, 12);
    assert_eq!(b.attributes[0].format, 106);
}

#[test]
fn memorytype_first_fit_respects_mask_and_flags() {
    let req = MemoryRequirements { size: 64, alignment: 16, memory_type_bits: 0b110 };
    let prop = MemoryProperties {
        memory_types: vec![
            MemoryType { property_flags: MEMORY_HOST_VISIBLE },
            MemoryType { property_flags: MEMORY_DEVICE_LOCAL },
            MemoryType { property_flags: MEMORY_HOST_VISIBLE | MEMORY_HOST_COHERENT },
        ],
    };
    // Type 0 is masked out; type 1 lacks the asked-for flags; type 2 fits.
    assert_eq!(find_memorytype_index(&req, &prop, MEMORY_HOST_VISIBLE), Some(2));
    // Asking for device-local finds type 1, whose bit is set.
    assert_eq!(find_memorytype_index(&req, &prop, MEMORY_DEVICE_LOCAL), Some(1));
    // Nothing offers both host-visible and device-local.
    assert_eq!(
        find_memorytype_index(&req, &prop, MEMORY_HOST_VISIBLE | MEMORY_DEVICE_LOCAL),
        None
    );
}

#[test]
fn buffer_cleanup_frees_memory_before_the_handle() {
    let data = [1u32];
    let b: Buffer<u32> = Buffer::new(&props(4, 4, 4));
    assert_eq!(b.cleanup(), vec![]);
    let bound = b.allocate(&data, backing());
    assert_eq!(
        bound.cleanup(),
        vec![DestroyAction::FreeMemory(72), DestroyAction::BufferHandle(71)]
    );
}
