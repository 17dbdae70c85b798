//! An ordered collection of bound buffers exposed to shaders as one
//! descriptor set: one layout covering every binding, one pool sized by
//! descriptor type, exactly one set, and dynamic-offset indexing for
//! array-of-instances uniform data.
use vstd::prelude::*;
use crate::gpu::types::{DestroyAction, DESCRIPTOR_UNIFORM_BUFFER_DYNAMIC, WHOLE_SIZE};
use crate::gpuv2::buffer::{spec_entry_size, Buffer};
use crate::gpuv2::Cleanup;

verus! {

/// The slice of a buffer a descriptor points shaders at.
#[derive(Clone, Copy, Debug, PartialEq, Eq, Structural)]
pub struct DescriptorBufferInfo {
    pub buffer: u64,
    pub offset: u64,
    pub range: u64,
}

/// What `add` records of one buffer: everything descriptor construction
/// and dynamic indexing later need.
#[derive(Clone, Copy, Debug, PartialEq, Eq, Structural)]
pub struct BufferData {
    pub descriptor_type: u32,
    pub descriptor_info: DescriptorBufferInfo,
    pub stages: u32,
    pub entry_size: u64,
    pub binding: u32,
}

/// One binding of the descriptor-set layout.
#[derive(Clone, Copy, Debug, PartialEq, Eq, Structural)]
pub struct DescriptorSetLayoutBinding {
    pub binding: u32,
    pub descriptor_type: u32,
    pub descriptor_count: u32,
    pub stage_flags: u32,
}

/// How many descriptors of one type the pool must hold.
#[derive(Clone, Copy, Debug, PartialEq, Eq, Structural)]
pub struct DescriptorPoolSize {
    pub ty: u32,
    pub descriptor_count: u32,
}

/// One batched descriptor write, deferred to the caller.
#[derive(Clone, Copy, Debug, PartialEq, Eq, Structural)]
pub struct WriteDescriptorSet {
    pub dst_set: u64,
    pub dst_binding: u32,
    pub dst_array_element: u32,
    pub descriptor_type: u32,
    pub descriptor_count: u32,
    pub buffer_info: DescriptorBufferInfo,
}

/// The native objects the shell created for a set: the layout, the pool
/// sized by `pool_sizes`, and the one set allocated from it.
#[derive(Clone, Copy, Debug, PartialEq, Eq, Structural)]
pub struct SetBacking {
    pub layout: u64,
    pub pool: u64,
    pub set: u64,
}

/// Some pool-size entry accounts for descriptor type `ty`.
pub open spec fn covers(r: Seq<DescriptorPoolSize>, ty: u32) -> bool {
    exists|p: int| 0 <= p < r.len() && r[p].ty == ty
}

/// How many recorded buffers carry descriptor type `ty`.
pub open spec fn count_type(s: Seq<BufferData>, ty: u32) -> int
    decreases s.len(),
{
    if s.len() == 0 {
        0
    } else {
        count_type(s.drop_last(), ty) + if s.last().descriptor_type == ty {
            1int
        } else {
            0int
        }
    }
}

pub proof fn lemma_count_type_le_len(s: Seq<BufferData>, ty: u32)
    ensures
        0 <= count_type(s, ty) <= s.len(),
    decreases s.len(),
{
    if s.len() > 0 {
        lemma_count_type_le_len(s.drop_last(), ty);
    }
}

/// A positive count names a witness: some recorded buffer carries the type.
pub proof fn lemma_count_type_pos(s: Seq<BufferData>, ty: u32)
    requires
        count_type(s, ty) > 0,
    ensures
        exists|k: int| 0 <= k < s.len() && s[k].descriptor_type == ty,
    decreases s.len(),
{
    if s.len() > 0 {
        if s.last().descriptor_type == ty {
            assert(s[s.len() - 1].descriptor_type == ty);
        } else {
            lemma_count_type_pos(s.drop_last(), ty);
            let k = choose|k: int|
                0 <= k < s.drop_last().len() && s.drop_last()[k].descriptor_type == ty;
            assert(s[k].descriptor_type == ty);
        }
    }
}

/// A group of buffers that will share one descriptor set. Every buffer
/// added must already be bound and must sit on a binding slot of its own.
#[derive(Clone, Debug)]
pub struct BufferSet {
    pub buffer_datas: Vec<BufferData>,
    pub descriptor_set_layout: Option<u64>,
    pub descriptor_pool: Option<u64>,
    pub descriptor_set: Option<u64>,
}

impl BufferSet {
    pub fn new() -> (r: Self)
        ensures
            r.buffer_datas@.len() == 0,
            r.descriptor_set_layout is None,
            r.descriptor_pool is None,
            r.descriptor_set is None,
    {
        BufferSet {
            buffer_datas: Vec::new(),
            descriptor_set_layout: None,
            descriptor_pool: None,
            descriptor_set: None,
        }
    }

    /// Records one buffer. The buffer must be bound already — an unbound
    /// buffer has no native handle a descriptor could point at — and must
    /// carry a binding slot no earlier buffer uses. A dynamically indexed
    /// uniform buffer is exposed one stride at a time; any other buffer is
    /// exposed whole.
    pub fn add<M: Copy>(self, buffer: &Buffer<M>) -> (r: Self)
        requires
            buffer.buffer is Some,
            buffer.binding is Some,
            forall|k: int| 0 <= k < self.buffer_datas@.len() ==> self.buffer_datas@[k].binding
                != buffer.binding->0,
        ensures
            r.buffer_datas@.len() == self.buffer_datas@.len() + 1,
            forall|k: int| 0 <= k < self.buffer_datas@.len() ==> r.buffer_datas@[k]
                == self.buffer_datas@[k],
            r.buffer_datas@.last() == (BufferData {
                descriptor_type: buffer.descriptor_type,
                descriptor_info: DescriptorBufferInfo {
                    buffer: buffer.buffer->0,
                    offset: 0,
                    range: if buffer.descriptor_type == DESCRIPTOR_UNIFORM_BUFFER_DYNAMIC {
                        spec_entry_size::<M>(
                            buffer.device_props.physical_props.limits.min_uniform_buffer_offset_alignment,
                        ) as u64
                    } else {
                        WHOLE_SIZE
                    },
                },
                stages: buffer.stages,
                entry_size: spec_entry_size::<M>(
                    buffer.device_props.physical_props.limits.min_uniform_buffer_offset_alignment,
                ) as u64,
                binding: buffer.binding->0,
            }),
            r.descriptor_set_layout == self.descriptor_set_layout,
            r.descriptor_pool == self.descriptor_pool,
            r.descriptor_set == self.descriptor_set,
    {
        let entry_size = buffer.entry_size();
        let native = match buffer.buffer {
            Some(b) => b,
            None => 0,
        };
        let desc_info = if buffer.descriptor_type == DESCRIPTOR_UNIFORM_BUFFER_DYNAMIC {
            DescriptorBufferInfo { buffer: native, offset: 0, range: entry_size }
        } else {
            DescriptorBufferInfo { buffer: native, offset: 0, range: WHOLE_SIZE }
        };
        let slot = match buffer.binding {
            Some(b) => b,
            None => 0,
        };
        let mut buffer_datas = self.buffer_datas;
        buffer_datas.push(
            BufferData {
                descriptor_type: buffer.descriptor_type,
                descriptor_info: desc_info,
                stages: buffer.stages,
                entry_size,
                binding: slot,
            },
        );
        BufferSet { buffer_datas, ..self }
    }

    /// The byte offset of element `j` of recorded buffer `i` under dynamic
    /// indexing: exactly `entry_size * j`, so elements are laid stride by
    /// stride and never closer.
    pub fn dynamic_offset(&self, i: usize, j: usize) -> (r: u32)
        requires
            i < self.buffer_datas@.len(),
            self.buffer_datas@[i as int].entry_size * j <= u32::MAX,
        ensures
            r == self.buffer_datas@[i as int].entry_size * j,
    {
        let e = self.buffer_datas[i].entry_size;
        let prod: u64 = e * (j as u64);
        prod as u32
    }

    /// The one native descriptor set; refused until `allocate` has run,
    /// since before that there is no set to expose.
    pub fn descriptor_set(&self) -> (r: u64)
        requires
            self.descriptor_set is Some,
        ensures
            r == self.descriptor_set->0,
    {
        self.descriptor_set.unwrap()
    }

    pub fn descriptor_set_layout(&self) -> (r: u64)
        requires
            self.descriptor_set_layout is Some,
        ensures
            r == self.descriptor_set_layout->0,
    {
        self.descriptor_set_layout.unwrap()
    }

    /// The batched writes that make the set describe its buffers: one
    /// write per recorded buffer, against this set, at the buffer's own
    /// binding slot. Until the shell issues them the set is not
    /// self-describing.
    pub fn write_descriptor_sets(&self) -> (r: Vec<WriteDescriptorSet>)
        requires
            self.descriptor_set is Some,
        ensures
            r@.len() == self.buffer_datas@.len(),
            forall|k: int| 0 <= k < r@.len() ==> r@[k] == (WriteDescriptorSet {
                dst_set: self.descriptor_set->0,
                dst_binding: self.buffer_datas@[k].binding,
                dst_array_element: 0,
                descriptor_type: self.buffer_datas@[k].descriptor_type,
                descriptor_count: 1,
                buffer_info: self.buffer_datas@[k].descriptor_info,
            }),
    {
        let dst_set = self.descriptor_set();
        let mut r: Vec<WriteDescriptorSet> = Vec::new();
        let n = self.buffer_datas.len();
        let mut i: usize = 0;
        while i < n
            invariant
                n == self.buffer_datas@.len(),
                i <= n,
                dst_set == self.descriptor_set->0,
                r@.len() == i,
                forall|k: int| 0 <= k < i ==> r@[k] == (WriteDescriptorSet {
                    dst_set: self.descriptor_set->0,
                    dst_binding: self.buffer_datas@[k].binding,
                    dst_array_element: 0,
                    descriptor_type: self.buffer_datas@[k].descriptor_type,
                    descriptor_count: 1,
                    buffer_info: self.buffer_datas@[k].descriptor_info,
                }),
            decreases n - i,
        {
            let bd = self.buffer_datas[i];
            r.push(
                WriteDescriptorSet {
                    dst_set,
                    dst_binding: bd.binding,
                    dst_array_element: 0,
                    descriptor_type: bd.descriptor_type,
                    descriptor_count: 1,
                    buffer_info: bd.descriptor_info,
                },
            );
            i += 1;
        }
        r
    }

    /// One layout binding per recorded buffer, in recorded order.
    pub fn layout_bindings(&self) -> (r: Vec<DescriptorSetLayoutBinding>)
        ensures
            r@.len() == self.buffer_datas@.len(),
            forall|k: int| 0 <= k < r@.len() ==> r@[k] == (DescriptorSetLayoutBinding {
                binding: self.buffer_datas@[k].binding,
                descriptor_type: self.buffer_datas@[k].descriptor_type,
                descriptor_count: 1,
                stage_flags: self.buffer_datas@[k].stages,
            }),
    {
        let mut r: Vec<DescriptorSetLayoutBinding> = Vec::new();
        let n = self.buffer_datas.len();
        let mut i: usize = 0;
        while i < n
            invariant
                n == self.buffer_datas@.len(),
                i <= n,
                r@.len() == i,
                forall|k: int| 0 <= k < i ==> r@[k] == (DescriptorSetLayoutBinding {
                    binding: self.buffer_datas@[k].binding,
                    descriptor_type: self.buffer_datas@[k].descriptor_type,
                    descriptor_count: 1,
                    stage_flags: self.buffer_datas@[k].stages,
                }),
            decreases n - i,
        {
            let bd = self.buffer_datas[i];
            r.push(
                DescriptorSetLayoutBinding {
                    binding: bd.binding,
                    descriptor_type: bd.descriptor_type,
                    descriptor_count: 1,
                    stage_flags: bd.stages,
                },
            );
            i += 1;
        }
        r
    }

    /// The pool sizes one pool needs for this set: one entry per distinct
    /// descriptor type, in order of first appearance, counting exactly the
    /// recorded buffers of that type — never a single flat count.
    #[verifier::loop_isolation(false)]
    pub fn pool_sizes(&self) -> (r: Vec<DescriptorPoolSize>)
        requires
            self.buffer_datas@.len() < 0x1_0000_0000,
        ensures
            forall|p1: int, p2: int| 0 <= p1 < p2 < r@.len() ==> r@[p1].ty != r@[p2].ty,
            forall|p: int| 0 <= p < r@.len() ==> r@[p].descriptor_count == count_type(
                self.buffer_datas@,
                r@[p].ty,
            ) && count_type(self.buffer_datas@, r@[p].ty) > 0,
            forall|k: int| 0 <= k < self.buffer_datas@.len() ==> covers(
                r@,
                #[trigger] self.buffer_datas@[k].descriptor_type,
            ),
    {
        let mut r: Vec<DescriptorPoolSize> = Vec::new();
        let n = self.buffer_datas.len();
        let mut i: usize = 0;
        while i < n
            invariant
                n == self.buffer_datas@.len(),
                n < 0x1_0000_0000,
                i <= n,
                forall|p1: int, p2: int| 0 <= p1 < p2 < r@.len() ==> r@[p1].ty != r@[p2].ty,
                forall|p: int| 0 <= p < r@.len() ==> r@[p].descriptor_count == count_type(
                    self.buffer_datas@.take(i as int),
                    r@[p].ty,
                ) && count_type(self.buffer_datas@.take(i as int), r@[p].ty) > 0,
                forall|k: int| 0 <= k < i ==> covers(
                    r@,
                    #[trigger] self.buffer_datas@[k].descriptor_type,
                ),
            decreases n - i,
        {
            let ghost prefix = self.buffer_datas@.take(i as int);
            let bd = self.buffer_datas[i];
            proof {
                assert(self.buffer_datas@.take(i + 1).drop_last() =~= prefix);
                assert(self.buffer_datas@.take(i + 1).last() == self.buffer_datas@[i as int]);
                assert forall|ty: u32| true implies count_type(
                    self.buffer_datas@.take(i + 1),
                    ty,
                ) == count_type(prefix, ty) + if self.buffer_datas@[i as int].descriptor_type == ty {
                    1int
                } else {
                    0int
                } by {}
            }
            let m = r.len();
            let mut p: usize = 0;
            let mut found = false;
            while p < m
                invariant
                    m == r@.len(),
                    p <= m,
                    !found ==> forall|q: int| 0 <= q < p ==> r@[q].ty != bd.descriptor_type,
                    found ==> p < m && r@[p as int].ty == bd.descriptor_type,
                decreases m - p + if found {
                    0int
                } else {
                    1int
                },
            {
                if r[p].ty == bd.descriptor_type {
                    found = true;
                    break ;
                }
                p += 1;
            }
            let ghost r_before = r@;
            if found {
                let old_count = r[p].descriptor_count;
                proof {
                    lemma_count_type_le_len(prefix, bd.descriptor_type);
                }
                r.set(
                    p,
                    DescriptorPoolSize { ty: bd.descriptor_type, descriptor_count: old_count + 1 },
                );
            } else {
                r.push(DescriptorPoolSize { ty: bd.descriptor_type, descriptor_count: 1 });
            }
            proof {
                let s1 = self.buffer_datas@.take(i + 1);
                assert(forall|q: int| 0 <= q < r_before.len() ==> r@[q].ty == r_before[q].ty);
                assert forall|q: int| 0 <= q < r@.len() implies r@[q].descriptor_count
                    == count_type(s1, r@[q].ty) && count_type(s1, r@[q].ty) > 0 by {
                    let ty = r@[q].ty;
                    assert(count_type(s1, ty) == count_type(prefix, ty) + if bd.descriptor_type
                        == ty {
                        1int
                    } else {
                        0int
                    });
                    lemma_count_type_le_len(prefix, ty);
                    lemma_count_type_le_len(prefix, bd.descriptor_type);
                    if found {
                        if q != p {
                            assert(r_before[q].ty != bd.descriptor_type);
                        }
                    } else {
                        if q < r_before.len() {
                            assert(r_before[q].ty != bd.descriptor_type);
                        } else {
                            if count_type(prefix, bd.descriptor_type) > 0 {
                                lemma_count_type_pos(prefix, bd.descriptor_type);
                                let k = choose|k: int|
                                    0 <= k < prefix.len() && prefix[k].descriptor_type
                                        == bd.descriptor_type;
                                assert(covers(
                                    r_before,
                                    self.buffer_datas@[k].descriptor_type,
                                ));
                                assert(false);
                            }
                        }
                    }
                }
                assert forall|k: int| 0 <= k < i + 1 implies covers(
                    r@,
                    self.buffer_datas@[k].descriptor_type,
                ) by {
                    let ty = self.buffer_datas@[k].descriptor_type;
                    if k < i {
                        let q = choose|q: int| 0 <= q < r_before.len() && r_before[q].ty == ty;
                        assert(r@[q].ty == ty);
                    } else {
                        if found {
                            assert(r@[p as int].ty == ty);
                        } else {
                            assert(r@[r@.len() - 1].ty == ty);
                        }
                    }
                }
            }
            i += 1;
        }
        proof {
            assert(self.buffer_datas@.take(n as int) =~= self.buffer_datas@);
        }
        r
    }

    /// Takes ownership of the native layout, pool and set the shell
    /// created from `layout_bindings` and `pool_sizes` — one pool, exactly
    /// one set. The recorded buffers are untouched; the set still needs
    /// the batched `write_descriptor_sets` update before shaders can read
    /// through it.
    pub fn allocate(self, backing: SetBacking) -> (r: Self)
        ensures
            r.buffer_datas@ == self.buffer_datas@,
            r.descriptor_set_layout == Some(backing.layout),
            r.descriptor_pool == Some(backing.pool),
            r.descriptor_set == Some(backing.set),
    {
        BufferSet {
            descriptor_set_layout: Some(backing.layout),
            descriptor_pool: Some(backing.pool),
            descriptor_set: Some(backing.set),
            ..self
        }
    }
}

impl Cleanup for BufferSet {
    /// An allocated set owes its layout, then its pool; the set itself
    /// dies with the pool.
    open spec fn cleanup_plan(&self) -> Seq<DestroyAction> {
        (match self.descriptor_set_layout {
            Some(l) => seq![DestroyAction::DescriptorSetLayout(l)],
            None => Seq::empty(),
        }) + (match self.descriptor_pool {
            Some(p) => seq![DestroyAction::DescriptorPool(p)],
            None => Seq::empty(),
        })
    }

    fn cleanup(&self) -> (r: Vec<DestroyAction>) {
        let mut r: Vec<DestroyAction> = Vec::new();
        if let Some(l) = self.descriptor_set_layout {
            r.push(DestroyAction::DescriptorSetLayout(l));
        }
        if let Some(p) = self.descriptor_pool {
            r.push(DestroyAction::DescriptorPool(p));
        }
        proof {
            assert(r@ =~= self.cleanup_plan());
        }
        r
    }
}

/// Two distinct element indices of one dynamically indexed buffer address
/// byte ranges that never overlap: each range is one stride wide and
/// strides are laid end to end.
pub proof fn lemma_dynamic_offsets_disjoint(entry_size: int, j1: int, j2: int)
    requires
        entry_size > 0,
        0 <= j1 < j2,
    ensures
        j1 * entry_size + entry_size <= j2 * entry_size,
{
    assert(j1 * entry_size + entry_size <= j2 * entry_size) by (nonlinear_arith)
        requires
            entry_size > 0,
            0 <= j1 < j2,
    ;
}

} // verus!
