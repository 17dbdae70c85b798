//! A generic typed GPU buffer: configured unbound, bound once by
//! `allocate`, filled repeatedly by `copy`. Element stride respects the
//! device's minimum offset alignments, and memory-type selection is the
//! first-fit policy over the adapter's reported types.
use vstd::prelude::*;
use crate::gpu::types::{
    DestroyAction, MemoryProperties, MemoryRequirements, DESCRIPTOR_UNIFORM_BUFFER,
    MEMORY_DEVICE_LOCAL, SHARING_EXCLUSIVE, USAGE_STORAGE_BUFFER, USAGE_UNIFORM_BUFFER,
    USAGE_UNIFORM_TEXEL_BUFFER,
};
use crate::gpuv2::device_properties::DeviceProperties;
use crate::gpuv2::Cleanup;

verus! {

/// One vertex-input attribute description a vertex buffer carries.
#[derive(Clone, Copy, Debug, PartialEq, Eq, Structural)]
pub struct VertexInputAttribute {
    pub location: u32,
    pub binding: u32,
    pub format: u32,
    pub offset: u32,
}

/// What the native buffer is created with.
#[derive(Clone, Copy, Debug, PartialEq, Eq, Structural)]
pub struct BufferCreateInfo {
    pub size: u64,
    pub usage: u32,
    pub sharing_mode: u32,
}

/// The native objects the shell created while binding a buffer: the buffer
/// handle, the device memory bound to it, and the requirements the device
/// reported for that buffer.
#[derive(Clone, Copy, Debug, PartialEq, Eq, Structural)]
pub struct BufferBacking {
    pub buffer: u64,
    pub device_memory: u64,
    pub memory_req: MemoryRequirements,
}

/// A typed buffer of elements of `T`. Unbound after construction (`buffer`
/// empty); `allocate` binds it once and for all; `copy` uploads a payload.
/// `contents` models the host-visible mapping: element `i` of the payload
/// sits at byte offset `i * entry_size()` of the bound memory.
#[derive(Clone, Debug)]
pub struct Buffer<T> {
    pub stages: u32,
    pub device_props: DeviceProperties,
    pub sharing_mode: u32,
    pub memory_flags: u32,
    pub usage: u32,
    pub descriptor_type: u32,
    pub binding: Option<u32>,
    pub attributes: Vec<VertexInputAttribute>,
    pub buffer: Option<u64>,
    pub device_memory: Option<u64>,
    pub memory_req: Option<MemoryRequirements>,
    pub entries: usize,
    pub contents: Vec<T>,
}

/// The per-element stride of a dynamically indexed buffer: the element
/// type's natural size, raised to the device's minimum dynamic offset
/// alignment when the type is smaller than that.
pub open spec fn spec_entry_size<T>(min_dynamic_align: u64) -> int {
    if vstd::layout::size_of::<T>() >= min_dynamic_align {
        vstd::layout::size_of::<T>() as int
    } else {
        min_dynamic_align as int
    }
}

/// The alignment a payload copy must honour: the element type's natural
/// alignment, raised to each minimum offset alignment whose usage class
/// the buffer declares.
pub open spec fn spec_align_buffer<T>(b: Buffer<T>) -> int {
    let a0 = vstd::layout::align_of::<T>() as int;
    let limits = b.device_props.physical_props.limits;
    let a1 = if b.usage & USAGE_UNIFORM_BUFFER != 0 && limits.min_uniform_buffer_offset_alignment
        > a0 {
        limits.min_uniform_buffer_offset_alignment as int
    } else {
        a0
    };
    let a2 = if b.usage & USAGE_STORAGE_BUFFER != 0 && limits.min_storage_buffer_offset_alignment
        > a1 {
        limits.min_storage_buffer_offset_alignment as int
    } else {
        a1
    };
    if b.usage & USAGE_UNIFORM_TEXEL_BUFFER != 0 && limits.min_texel_buffer_offset_alignment > a2 {
        limits.min_texel_buffer_offset_alignment as int
    } else {
        a2
    }
}

/// Memory type `k` can back an allocation: its bit is set in the
/// requirement's compatibility mask and its property flags cover everything
/// asked for.
pub open spec fn type_matches(
    memory_req: MemoryRequirements,
    t: crate::gpu::types::MemoryType,
    k: int,
    flags: u32,
) -> bool {
    &&& (1u32 << (k as u32)) & memory_req.memory_type_bits != 0
    &&& t.property_flags & flags == flags
}

/// The configuration fields of a buffer, which binding and copying never
/// touch.
pub open spec fn same_config<T>(a: Buffer<T>, b: Buffer<T>) -> bool {
    &&& a.stages == b.stages
    &&& a.device_props == b.device_props
    &&& a.sharing_mode == b.sharing_mode
    &&& a.memory_flags == b.memory_flags
    &&& a.usage == b.usage
    &&& a.descriptor_type == b.descriptor_type
    &&& a.binding == b.binding
    &&& a.attributes@ == b.attributes@
}

/// The binding fields fixed by `allocate`.
pub open spec fn same_binding<T>(a: Buffer<T>, b: Buffer<T>) -> bool {
    &&& a.buffer == b.buffer
    &&& a.device_memory == b.device_memory
    &&& a.memory_req == b.memory_req
    &&& a.entries == b.entries
}

impl<T: Copy> Buffer<T> {
    /// A fresh, unbound buffer with the default policy: a uniform buffer
    /// for device-local, exclusively owned memory, bound to no slot.
    pub fn new(device_props: &DeviceProperties) -> (r: Self)
        ensures
            r.stages == 0,
            r.device_props.physical_memory.memory_types@
                == device_props.physical_memory.memory_types@,
            r.device_props.physical_props == device_props.physical_props,
            r.sharing_mode == SHARING_EXCLUSIVE,
            r.memory_flags == MEMORY_DEVICE_LOCAL,
            r.usage == USAGE_UNIFORM_BUFFER,
            r.descriptor_type == DESCRIPTOR_UNIFORM_BUFFER,
            r.binding is None,
            r.attributes@.len() == 0,
            r.buffer is None,
            r.device_memory is None,
            r.memory_req is None,
            r.entries == 0,
            r.contents@.len() == 0,
    {
        let types = device_props.physical_memory.memory_types.clone();
        proof {
            assert(types@ =~= device_props.physical_memory.memory_types@);
        }
        Buffer {
            stages: 0,
            device_props: DeviceProperties {
                physical_memory: MemoryProperties { memory_types: types },
                physical_props: device_props.physical_props,
            },
            sharing_mode: SHARING_EXCLUSIVE,
            memory_flags: MEMORY_DEVICE_LOCAL,
            usage: USAGE_UNIFORM_BUFFER,
            descriptor_type: DESCRIPTOR_UNIFORM_BUFFER,
            binding: None,
            attributes: Vec::new(),
            buffer: None,
            device_memory: None,
            memory_req: None,
            entries: 0,
            contents: Vec::new(),
        }
    }

    pub fn stages(self, stages: u32) -> (r: Self)
        ensures
            r == (Buffer { stages, ..self }),
    {
        Buffer { stages, ..self }
    }

    pub fn binding(self, binding: u32) -> (r: Self)
        ensures
            r == (Buffer { binding: Some(binding), ..self }),
    {
        Buffer { binding: Some(binding), ..self }
    }

    pub fn usage(self, usage: u32) -> (r: Self)
        ensures
            r == (Buffer { usage, ..self }),
    {
        Buffer { usage, ..self }
    }

    pub fn descriptor_type(self, descriptor_type: u32) -> (r: Self)
        ensures
            r == (Buffer { descriptor_type, ..self }),
    {
        Buffer { descriptor_type, ..self }
    }

    pub fn sharing_mode(self, mode: u32) -> (r: Self)
        ensures
            r == (Buffer { sharing_mode: mode, ..self }),
    {
        Buffer { sharing_mode: mode, ..self }
    }

    pub fn memory_flags(self, flags: u32) -> (r: Self)
        ensures
            r == (Buffer { memory_flags: flags, ..self }),
    {
        Buffer { memory_flags: flags, ..self }
    }

    pub fn vertex_input_attribute(self, location: u32, binding: u32, offset: u32, format: u32) -> (r:
        Self)
        ensures
            r.attributes@ == self.attributes@.push(
                VertexInputAttribute { location, binding, format, offset },
            ),
            r.stages == self.stages,
            r.device_props == self.device_props,
            r.sharing_mode == self.sharing_mode,
            r.memory_flags == self.memory_flags,
            r.usage == self.usage,
            r.descriptor_type == self.descriptor_type,
            r.binding == self.binding,
            same_binding(r, self),
            r.contents@ == self.contents@,
    {
        let desc = VertexInputAttribute { location, binding, format, offset };
        let mut new_attrs = self.attributes;
        new_attrs.push(desc);
        Buffer { attributes: new_attrs, ..self }
    }

    /// The per-element stride used when this buffer is indexed with
    /// dynamic offsets.
    pub fn entry_size(&self) -> (r: u64)
        ensures
            r == spec_entry_size::<T>(
                self.device_props.physical_props.limits.min_uniform_buffer_offset_alignment,
            ),
    {
        let type_size = core::mem::size_of::<T>() as u64;
        let min_dynamic_size =
            self.device_props.physical_props.limits.min_uniform_buffer_offset_alignment;
        if type_size >= min_dynamic_size {
            type_size
        } else {
            min_dynamic_size
        }
    }

    /// What the native buffer must be created with for this payload: the
    /// stride times the element count, under this buffer's usage and
    /// sharing policy.
    pub fn info(&self, data: &[T]) -> (r: BufferCreateInfo)
        requires
            spec_entry_size::<T>(
                self.device_props.physical_props.limits.min_uniform_buffer_offset_alignment,
            ) * data@.len() <= u64::MAX,
        ensures
            r.size == spec_entry_size::<T>(
                self.device_props.physical_props.limits.min_uniform_buffer_offset_alignment,
            ) * data@.len(),
            r.usage == self.usage,
            r.sharing_mode == self.sharing_mode,
    {
        let size = self.entry_size() * data.len() as u64;
        BufferCreateInfo { size, usage: self.usage, sharing_mode: self.sharing_mode }
    }

    /// Binds the buffer: records the native buffer, its memory and the
    /// reported requirements, and fixes the element capacity. Binding an
    /// already-bound buffer is a no-op that returns the same bound state —
    /// it never binds a second set of native objects.
    pub fn allocate(self, data: &[T], backing: BufferBacking) -> (r: Self)
        ensures
            self.buffer is Some ==> r == self,
            self.buffer is None ==> {
                &&& r.buffer == Some(backing.buffer)
                &&& r.device_memory == Some(backing.device_memory)
                &&& r.memory_req == Some(backing.memory_req)
                &&& r.entries == data@.len()
                &&& same_config(r, self)
                &&& r.contents@ == self.contents@
            },
    {
        if self.buffer.is_some() {
            return self;
        }
        let entries = data.len();
        Buffer {
            buffer: Some(backing.buffer),
            device_memory: Some(backing.device_memory),
            memory_req: Some(backing.memory_req),
            entries,
            ..self
        }
    }

    /// The alignment a payload copy must honour for this buffer's usage.
    pub fn align_buffer(&self) -> (r: u64)
        ensures
            r == spec_align_buffer(*self),
    {
        let limits = self.device_props.physical_props.limits;
        let mut align = core::mem::align_of::<T>() as u64;
        if self.usage & USAGE_UNIFORM_BUFFER != 0 && limits.min_uniform_buffer_offset_alignment
            > align {
            align = limits.min_uniform_buffer_offset_alignment;
        }
        if self.usage & USAGE_STORAGE_BUFFER != 0 && limits.min_storage_buffer_offset_alignment
            > align {
            align = limits.min_storage_buffer_offset_alignment;
        }
        if self.usage & USAGE_UNIFORM_TEXEL_BUFFER != 0 && limits.min_texel_buffer_offset_alignment
            > align {
            align = limits.min_texel_buffer_offset_alignment;
        }
        align
    }

    /// Uploads a payload into the bound memory: after the copy the mapping
    /// holds exactly `data`, element `i` at offset `i * entry_size()`.
    /// Repeatable; refused before `allocate` — an unbound buffer has no
    /// memory a mapping could reach.
    pub fn copy(&mut self, data: &[T])
        requires
            old(self).buffer is Some,
            data@.len() <= old(self).entries,
        ensures
            final(self).contents@ == data@,
            same_config(*final(self), *old(self)),
            same_binding(*final(self), *old(self)),
    {
        self.contents = vstd::slice::slice_to_vec(data);
    }

    /// The host-visible mapping of the bound memory: exactly what the last
    /// `copy` wrote.
    pub fn mapped(&self) -> (r: &Vec<T>)
        requires
            self.buffer is Some,
        ensures
            r@ == self.contents@,
    {
        &self.contents
    }

    /// Binds if not yet bound, then uploads: the one-call path from a
    /// configured buffer to a filled one.
    pub fn load(self, data: &[T], backing: BufferBacking) -> (r: Self)
        requires
            self.buffer is Some ==> data@.len() <= self.entries,
        ensures
            r.contents@ == data@,
            same_config(r, self),
            self.buffer is Some ==> same_binding(r, self),
            self.buffer is None ==> {
                &&& r.buffer == Some(backing.buffer)
                &&& r.device_memory == Some(backing.device_memory)
                &&& r.memory_req == Some(backing.memory_req)
                &&& r.entries == data@.len()
            },
    {
        let mut resp = self.allocate(data, backing);
        resp.copy(data);
        resp
    }
}

impl<T: Copy> Cleanup for Buffer<T> {
    /// A bound buffer owes its memory first, then the buffer handle; an
    /// unbound one owes nothing.
    open spec fn cleanup_plan(&self) -> Seq<DestroyAction> {
        match (self.buffer, self.device_memory) {
            (Some(b), Some(m)) => seq![DestroyAction::FreeMemory(m), DestroyAction::BufferHandle(b)],
            _ => Seq::empty(),
        }
    }

    fn cleanup(&self) -> (r: Vec<DestroyAction>) {
        let mut r: Vec<DestroyAction> = Vec::new();
        match (self.buffer, self.device_memory) {
            (Some(b), Some(m)) => {
                r.push(DestroyAction::FreeMemory(m));
                r.push(DestroyAction::BufferHandle(b));
            },
            _ => {},
        }
        proof {
            assert(r@ =~= self.cleanup_plan());
        }
        r
    }
}

/// First-fit memory-type selection: the index of the first reported type
/// whose bit is set in the requirement's mask and whose properties cover
/// `flags`; nothing when no type qualifies. The policy is deliberately
/// first-match, not best-match.
pub fn find_memorytype_index(
    memory_req: &MemoryRequirements,
    memory_prop: &MemoryProperties,
    flags: u32,
) -> (r: Option<u32>)
    requires
        memory_prop.memory_types@.len() <= 32,
    ensures
        match r {
            Some(idx) => {
                &&& 0 <= idx < memory_prop.memory_types@.len()
                &&& type_matches(*memory_req, memory_prop.memory_types@[idx as int], idx as int, flags)
                &&& forall|k: int| 0 <= k < idx ==> !type_matches(
                    *memory_req,
                    memory_prop.memory_types@[k],
                    k,
                    flags,
                )
            },
            None => forall|k: int| 0 <= k < memory_prop.memory_types@.len() ==> !type_matches(
                *memory_req,
                memory_prop.memory_types@[k],
                k,
                flags,
            ),
        },
{
    let n = memory_prop.memory_types.len();
    let mut i: usize = 0;
    while i < n
        invariant
            n == memory_prop.memory_types@.len(),
            n <= 32,
            i <= n,
            forall|k: int| 0 <= k < i ==> !type_matches(
                *memory_req,
                memory_prop.memory_types@[k],
                k,
                flags,
            ),
        decreases n - i,
    {
        let bit: u32 = 1u32 << (i as u32);
        let t = memory_prop.memory_types[i];
        if bit & memory_req.memory_type_bits != 0 && t.property_flags & flags == flags {
            return Some(i as u32);
        }
        i += 1;
    }
    None
}

/// The stride is never below the element type's size, and — whenever the
/// device's reported minimum dynamic alignment is a unit of the type's
/// size, as it is for every properly padded element type — it is an exact
/// multiple of that minimum.
pub proof fn lemma_entry_size_aligned<T>(min_dynamic_align: u64)
    requires
        min_dynamic_align > 0,
        vstd::layout::size_of::<T>() <= min_dynamic_align || vstd::layout::size_of::<T>() % (
        min_dynamic_align as nat) == 0,
    ensures
        spec_entry_size::<T>(min_dynamic_align) >= vstd::layout::size_of::<T>(),
        spec_entry_size::<T>(min_dynamic_align) % (min_dynamic_align as int) == 0,
{
    let s = vstd::layout::size_of::<T>() as int;
    let a = min_dynamic_align as int;
    vstd::arithmetic::div_mod::lemma_mod_self_0(a);
    if s >= a {
        assert(s % a == 0);
    }
}

} // verus!
