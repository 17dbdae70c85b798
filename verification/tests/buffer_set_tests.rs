use renderer::gpu::types::{
    DestroyAction, DeviceLimits, MemoryProperties, MemoryRequirements, PhysicalProperties,
    DESCRIPTOR_UNIFORM_BUFFER, DESCRIPTOR_UNIFORM_BUFFER_DYNAMIC, WHOLE_SIZE,
};
use renderer::gpuv2::buffer::{Buffer, BufferBacking};
use renderer::gpuv2::buffer_set::{BufferSet, SetBacking};
use renderer::gpuv2::Cleanup;

#[derive(Copy, Clone)]
struct Transform16 {
    m: [u32; 4],
}

#[derive(Copy, Clone)]
struct Material4 {
    id: u32,
}

fn props(uniform_align: u64) -> renderer::gpuv2::device_properties::DeviceProperties {
    renderer::gpuv2::device_properties::DeviceProperties {
        physical_memory: MemoryProperties { memory_types: vec![] },
        physical_props: PhysicalProperties {
            limits: DeviceLimits {
                min_uniform_buffer_offset_alignment: uniform_align,
                min_storage_buffer_offset_alignment: uniform_align,
                min_texel_buffer_offset_alignment: uniform_align,
            },
        },
    }
}

fn backing(buffer: u64) -> BufferBacking {
    BufferBacking {
        buffer,
        device_memory: buffer + 1,
        memory_req: MemoryRequirements { size: 4096, alignment: 64, memory_type_bits: 1 },
    }
}

/// The two-buffer scenario: a dynamic uniform buffer of three 16-byte
/// entries at slot 0 and a plain uniform buffer of one 4-byte entry at
/// slot 1 make a pool sized one-per-type and one set with two bindings.
#[test]
fn two_buffer_set_sizes_pool_by_type() {
    let transforms = [
        Transform16 { m: [0; 4] },
        Transform16 { m: [1; 4] },
        Transform16 { m: [2; 4] },
    ];
    let materials = [Material4 { id: 1 }];
    let transform_buffer: Buffer<Transform16> = Buffer::new(&props(16))
        .binding(0)
        .descriptor_type(DESCRIPTOR_UNIFORM_BUFFER_DYNAMIC)
        .allocate(&transforms, backing(100));
    let material_buffer: Buffer<Material4> = Buffer::new(&props(16))
        .binding(1)
        .descriptor_type(DESCRIPTOR_UNIFORM_BUFFER)
        .allocate(&materials, backing(200));
    let set = BufferSet::new().add(&transform_buffer).add(&material_buffer);

    let sizes = set.pool_sizes();
    assert_eq!(sizes.len(), 2);
    assert!(sizes.iter().any(|p| p.ty == DESCRIPTOR_UNIFORM_BUFFER_DYNAMIC
        && p.descriptor_count == 1));
    assert!(sizes.iter().any(|p| p.ty == DESCRIPTOR_UNIFORM_BUFFER && p.descriptor_count == 1));

    let bindings = set.layout_bindings();
    assert_eq!(bindings.len(), 2);
    assert_eq!(bindings[0].binding, 0);
    assert_eq!(bindings[0].descriptor_type, DESCRIPTOR_UNIFORM_BUFFER_DYNAMIC);
    assert_eq!(bindings[1].binding, 1);
    assert_eq!(bindings[1].descriptor_type, DESCRIPTOR_UNIFORM_BUFFER);

    let set = set.allocate(SetBacking { layout: 11, pool: 12, set: 13 });
    assert_eq!(set.descriptor_set(), 13);
    assert_eq!(set.descriptor_set_layout(), 11);
    let writes = set.write_descriptor_sets();
    assert_eq!(writes.len(), 2);
    assert_eq!(writes[0].dst_set, 13);
    assert_eq!(writes[0].dst_binding, 0);
    assert_eq!(writes[0].descriptor_count, 1);
    assert_eq!(writes[1].dst_binding, 1);
}

#[test]
fn pool_sizes_count_repeated_types() {
    let a = [Material4 { id: 1 }];
    let b0: Buffer<Material4> = Buffer::new(&props(16)).binding(0).allocate(&a, backing(1));
    let b1: Buffer<Material4> = Buffer::new(&props(16)).binding(1).allocate(&a, backing(3));
    let b2: Buffer<Material4> = Buffer::new(&props(16))
        .binding(2)
        .descriptor_type(DESCRIPTOR_UNIFORM_BUFFER_DYNAMIC)
        .allocate(&a, backing(5));
    let set = BufferSet::new().add(&b0).add(&b1).add(&b2);
    let sizes = set.pool_sizes();
    assert_eq!(sizes.len(), 2);
    assert_eq!(sizes[0].ty, DESCRIPTOR_UNIFORM_BUFFER);
    assert_eq!(sizes[0].descriptor_count, 2);
    assert_eq!(sizes[1].ty, DESCRIPTOR_UNIFORM_BUFFER_DYNAMIC);
    assert_eq!(sizes[1].descriptor_count, 1);
}

#[test]
fn dynamic_descriptors_expose_one_stride_others_the_whole_buffer() {
    let transforms = [Transform16 { m: [0; 4] }];
    let dynamic: Buffer<Transform16> = Buffer::new(&props(64))
        .binding(0)
        .descriptor_type(DESCRIPTOR_UNIFORM_BUFFER_DYNAMIC)
        .allocate(&transforms, backing(100));
    let plain: Buffer<Transform16> = Buffer::new(&props(64))
        .binding(1)
        .allocate(&transforms, backing(200));
    let set = BufferSet::new().add(&dynamic).add(&plain);
    assert_eq!(set.buffer_datas[0].descriptor_info.range, 64);
    assert_eq!(set.buffer_datas[0].descriptor_info.buffer, 100);
    assert_eq!(set.buffer_datas[1].descriptor_info.range, WHOLE_SIZE);
    assert_eq!(set.buffer_datas[1].descriptor_info.buffer, 200);
}

/// Offsets advance by exactly one stride per element index.
#[test]
fn dynamic_offset_is_stride_times_index() {
    let transforms = [
        Transform16 { m: [0; 4] },
        Transform16 { m: [1; 4] },
        Transform16 { m: [2; 4] },
    ];
    let buffer: Buffer<Transform16> = Buffer::new(&props(64))
        .binding(0)
        .descriptor_type(DESCRIPTOR_UNIFORM_BUFFER_DYNAMIC)
        .allocate(&transforms, backing(100));
    let set = BufferSet::new().add(&buffer);
    assert_eq!(set.dynamic_offset(0, 0), 0);
    assert_eq!(set.dynamic_offset(0, 1), 64);
    assert_eq!(set.dynamic_offset(0, 2), 128);
}

#[test]
fn set_cleanup_destroys_layout_then_pool() {
    let set = BufferSet::new();
    assert_eq!(set.cleanup(), vec![]);
    let set = set.allocate(SetBacking { layout: 21, pool: 22, set: 23 });
    assert_eq!(
        set.cleanup(),
        vec![DestroyAction::DescriptorSetLayout(21), DestroyAction::DescriptorPool(22)]
    );
}

#[test]
fn dynamic_offset_indexes_each_recorded_buffer() {
    let transforms = [Transform16 { m: [0; 4] }, Transform16 { m: [1; 4] }];
    let materials = [Material4 { id: 1 }, Material4 { id: 2 }];
    let t: Buffer<Transform16> = Buffer::new(&props(64))
        .binding(0)
        .descriptor_type(DESCRIPTOR_UNIFORM_BUFFER_DYNAMIC)
        .allocate(&transforms, backing(1));
    let m: Buffer<Material4> = Buffer::new(&props(16))
        .binding(1)
        .descriptor_type(DESCRIPTOR_UNIFORM_BUFFER_DYNAMIC)
        .allocate(&materials, backing(3));
    let set = BufferSet::new().add(&t).add(&m);
    assert_eq!(set.dynamic_offset(0, 1), 64);
    assert_eq!(set.dynamic_offset(1, 1), 16);
}
