//! The process-wide entry point: merges the loader's required extension
//! names with the window's, picks the adapter and queue family a device is
//! built on, tracks every instance, surface and device it issued, and tears
//! them all down in children-before-parents order.
use vstd::prelude::*;
use crate::gpu::device::{Device, SurfaceInfo};
use crate::gpu::instance::Instance;
use crate::gpu::registry::Registry;
use crate::gpu::surface::Surface;
use crate::gpu::types::{
    DestroyAction, DeviceLimits, Extent2d, MemoryProperties, PhysicalProperties,
    SurfaceCapabilities,
};

verus! {

/// What one queue family of an adapter reports for the surface at hand.
#[derive(Clone, Copy, Debug, PartialEq, Eq, Structural)]
pub struct QueueFamilyInfo {
    pub supports_graphics: bool,
    pub supports_present: bool,
}

/// One physical adapter: its native handle and its queue families' reports,
/// in the order the adapter lists them.
#[derive(Clone, Debug)]
pub struct AdapterInfo {
    pub pdevice: u64,
    pub queue_families: Vec<QueueFamilyInfo>,
}

/// A queue family a device may be built on: it must accept graphics work
/// and be able to present to the surface.
pub open spec fn suitable_family(f: QueueFamilyInfo) -> bool {
    f.supports_graphics && f.supports_present
}

pub open spec fn has_suitable_family(a: AdapterInfo) -> bool {
    exists|j: int| 0 <= j < a.queue_families@.len() && suitable_family(a.queue_families@[j])
}

pub open spec fn any_suitable(adapters: Seq<AdapterInfo>) -> bool {
    exists|i: int| 0 <= i < adapters.len() && has_suitable_family(adapters[i])
}

/// `r` is `a` followed by `b`, name for name.
pub open spec fn merged_names(r: Seq<String>, a: Seq<String>, b: Seq<String>) -> bool {
    &&& r.len() == a.len() + b.len()
    &&& forall|k: int| 0 <= k < a.len() ==> r[k]@ == a[k]@
    &&& forall|k: int| 0 <= k < b.len() ==> r[a.len() + k]@ == b[k]@
}

/// The pair `(i, j)` the search settles on: the first suitable family of
/// the first adapter that has one.
pub open spec fn chosen_queue(adapters: Seq<AdapterInfo>, i: int, j: int) -> bool {
    &&& 0 <= i < adapters.len()
    &&& 0 <= j < adapters[i].queue_families@.len()
    &&& suitable_family(adapters[i].queue_families@[j])
    &&& forall|i2: int| 0 <= i2 < i ==> !has_suitable_family(adapters[i2])
    &&& forall|j2: int| 0 <= j2 < j ==> !suitable_family(adapters[i].queue_families@[j2])
}

/// Scans adapters in reported order for a queue family that supports both
/// graphics submission and presentation to the surface the reports were
/// taken against. Returns the first such (adapter, family) pair, or nothing
/// when no adapter qualifies.
pub fn find_queue(adapters: &Vec<AdapterInfo>) -> (r: Option<(usize, usize)>)
    ensures
        match r {
            Some(p) => chosen_queue(adapters@, p.0 as int, p.1 as int),
            None => !any_suitable(adapters@),
        },
{
    let n = adapters.len();
    let mut i: usize = 0;
    while i < n
        invariant
            n == adapters@.len(),
            i <= n,
            forall|i2: int| 0 <= i2 < i ==> !has_suitable_family(adapters@[i2]),
        decreases n - i,
    {
        let families = &adapters[i].queue_families;
        let m = families.len();
        let mut j: usize = 0;
        while j < m
            invariant
                n == adapters@.len(),
                i < n,
                m == families@.len(),
                families@ == adapters@[i as int].queue_families@,
                j <= m,
                forall|i2: int| 0 <= i2 < i ==> !has_suitable_family(adapters@[i2]),
                forall|j2: int| 0 <= j2 < j ==> !suitable_family(families@[j2]),
            decreases m - j,
        {
            let f = families[j];
            if f.supports_graphics && f.supports_present {
                return Some((i, j));
            }
            j += 1;
        }
        proof {
            assert(!has_suitable_family(adapters@[i as int]));
        }
        i += 1;
    }
    None
}

/// The destructions owed for the still-live devices of a registry, in key
/// order: each device's command pool, then its logical device.
pub open spec fn device_actions(slots: Seq<Option<Device>>) -> Seq<DestroyAction>
    decreases slots.len(),
{
    if slots.len() == 0 {
        Seq::empty()
    } else {
        device_actions(slots.drop_last()) + match slots.last() {
            Some(d) => seq![
                DestroyAction::CommandPool(d.command_pool),
                DestroyAction::Device(d.device),
            ],
            None => Seq::empty(),
        }
    }
}

/// The destructions owed for the still-live surfaces of a registry, in key
/// order.
pub open spec fn surface_actions(slots: Seq<Option<Surface>>) -> Seq<DestroyAction>
    decreases slots.len(),
{
    if slots.len() == 0 {
        Seq::empty()
    } else {
        surface_actions(slots.drop_last()) + match slots.last() {
            Some(s) => seq![DestroyAction::Surface(s.surface)],
            None => Seq::empty(),
        }
    }
}

/// The destructions owed for the still-live instances of a registry, in key
/// order.
pub open spec fn instance_actions(slots: Seq<Option<Instance>>) -> Seq<DestroyAction>
    decreases slots.len(),
{
    if slots.len() == 0 {
        Seq::empty()
    } else {
        instance_actions(slots.drop_last()) + match slots.last() {
            Some(inst) => seq![DestroyAction::Instance(inst.instance)],
            None => Seq::empty(),
        }
    }
}

/// The process-wide loader state: the layer and extension names every
/// instance is created with, and the registries of everything issued.
pub struct System {
    pub layer_names: Vec<String>,
    pub extension_names: Vec<String>,
    pub instances: Registry<Instance>,
    pub surfaces: Registry<Surface>,
    pub devices: Registry<Device>,
}

impl System {
    pub fn new() -> (r: System)
        ensures
            r.layer_names@.len() == 1,
            r.layer_names@[0]@ == "VK_LAYER_KHRONOS_validation"@,
            r.extension_names@.len() == 1,
            r.extension_names@[0]@ == "VK_EXT_debug_utils"@,
            r.instances@.len() == 0,
            r.surfaces@.len() == 0,
            r.devices@.len() == 0,
    {
        let mut layer_names: Vec<String> = Vec::new();
        layer_names.push("VK_LAYER_KHRONOS_validation".to_owned());
        let mut extension_names: Vec<String> = Vec::new();
        extension_names.push("VK_EXT_debug_utils".to_owned());
        System {
            layer_names,
            extension_names,
            instances: Registry::new(),
            surfaces: Registry::new(),
            devices: Registry::new(),
        }
    }

    /// The loader-level extension names merged with the names the window
    /// demands, in that order: exactly the list the native instance must be
    /// created with.
    pub fn instance_extensions(&self, window_extensions: &Vec<String>) -> (r: Vec<String>)
        ensures
            merged_names(r@, self.extension_names@, window_extensions@),
    {
        let mut r: Vec<String> = Vec::new();
        let n = self.extension_names.len();
        let mut i: usize = 0;
        while i < n
            invariant
                n == self.extension_names@.len(),
                i <= n,
                r@.len() == i,
                forall|k: int| 0 <= k < i ==> r@[k]@ == self.extension_names@[k]@,
            decreases n - i,
        {
            r.push(self.extension_names[i].clone());
            i += 1;
        }
        let m = window_extensions.len();
        let mut j: usize = 0;
        while j < m
            invariant
                n == self.extension_names@.len(),
                m == window_extensions@.len(),
                j <= m,
                r@.len() == n + j,
                forall|k: int| 0 <= k < n ==> r@[k]@ == self.extension_names@[k]@,
                forall|k: int| 0 <= k < j ==> r@[n + k]@ == window_extensions@[k]@,
            decreases m - j,
        {
            r.push(window_extensions[j].clone());
            j += 1;
        }
        r
    }

    /// Registers the instance built for one window. `native` is the handle
    /// the shell got back from instance creation, which it must have issued
    /// with exactly `instance_extensions(window_extensions)` and the
    /// system's layer names; creation failure is fatal and never reaches
    /// this registry.
    pub fn instance(
        &mut self,
        window_extent: Extent2d,
        window_extensions: &Vec<String>,
        native: u64,
    ) -> (key: usize)
        ensures
            key == old(self).instances@.len(),
            final(self).instances@.len() == old(self).instances@.len() + 1,
            final(self).instances.live(key as int),
            final(self).instances.value(key as int).instance == native,
            final(self).instances.value(key as int).window_extent == window_extent,
            merged_names(
                final(self).instances.value(key as int).extensions@,
                old(self).extension_names@,
                window_extensions@,
            ),
            forall|k: int| 0 <= k < old(self).instances@.len()
                ==> final(self).instances@[k] == old(self).instances@[k],
            final(self).surfaces@ == old(self).surfaces@,
            final(self).devices@ == old(self).devices@,
            final(self).extension_names == old(self).extension_names,
            final(self).layer_names == old(self).layer_names,
    {
        let all_extensions = self.instance_extensions(window_extensions);
        let mut layers: Vec<String> = Vec::new();
        let ln = self.layer_names.len();
        let mut i: usize = 0;
        while i < ln
            invariant
                ln == self.layer_names@.len(),
                i <= ln,
                layers@.len() == i,
            decreases ln - i,
        {
            layers.push(self.layer_names[i].clone());
            i += 1;
        }
        let inst = Instance { instance: native, window_extent, extensions: all_extensions, layers };
        self.instances.insert(inst)
    }

    /// Registers the surface the shell created for an instance's window. A
    /// surface holds its owning instance's key, so it can never be created
    /// for a released instance.
    pub fn surface(&mut self, instance_id: usize, native: u64) -> (key: usize)
        requires
            old(self).instances.live(instance_id as int),
        ensures
            key == old(self).surfaces@.len(),
            final(self).surfaces@ == old(self).surfaces@.push(
                Some(Surface { surface: native, instance_id }),
            ),
            final(self).surfaces.live(key as int),
            final(self).instances@ == old(self).instances@,
            final(self).devices@ == old(self).devices@,
            final(self).extension_names == old(self).extension_names,
            final(self).layer_names == old(self).layer_names,
    {
        self.surfaces.insert(Surface { surface: native, instance_id })
    }

    /// Picks the adapter and queue family for a surface and registers the
    /// device built on that choice. Returns nothing — a recoverable "no
    /// suitable hardware" answer, not a failure — exactly when no adapter
    /// exposes a queue family that both accepts graphics work and presents
    /// to this surface. The device is registered with null native handles
    /// and an empty capability snapshot; the shell fills both in through
    /// `devices.get_mut` once it has created the logical device.
    pub fn device(&mut self, surface_id: usize, adapters: &Vec<AdapterInfo>) -> (r: Option<usize>)
        requires
            old(self).surfaces.live(surface_id as int),
            old(self).instances.live(old(self).surfaces.value(surface_id as int).instance_id as int),
            forall|i: int| 0 <= i < adapters@.len() ==> adapters@[i].queue_families@.len()
                < 0x1_0000_0000,
        ensures
            match r {
                Some(key) => {
                    &&& key == old(self).devices@.len()
                    &&& final(self).devices@.len() == old(self).devices@.len() + 1
                    &&& final(self).devices.live(key as int)
                    &&& exists|i: int, j: int|
                        {
                            &&& chosen_queue(adapters@, i, j)
                            &&& final(self).devices.value(key as int).pdevice
                                == adapters@[i].pdevice
                            &&& final(self).devices.value(key as int).queue_family_idx == j
                        }
                    &&& final(self).devices.value(key as int).surface_id == surface_id
                    &&& final(self).devices.value(key as int).instance_id
                        == old(self).surfaces.value(surface_id as int).instance_id
                    &&& final(self).devices.value(key as int).window_extent
                        == old(self).instances.value(
                            old(self).surfaces.value(surface_id as int).instance_id as int,
                        ).window_extent
                    &&& forall|k: int| 0 <= k < old(self).devices@.len()
                        ==> final(self).devices@[k] == old(self).devices@[k]
                },
                None => {
                    &&& !any_suitable(adapters@)
                    &&& final(self).devices@ == old(self).devices@
                },
            },
            final(self).instances@ == old(self).instances@,
            final(self).surfaces@ == old(self).surfaces@,
            final(self).extension_names == old(self).extension_names,
            final(self).layer_names == old(self).layer_names,
    {
        match find_queue(adapters) {
            None => None,
            Some((adapter_idx, family_idx)) => {
                let surface = self.surfaces.get(surface_id);
                let instance_id = surface.instance_id;
                let window_extent = self.instances.get(instance_id).window_extent;
                let pdevice = adapters[adapter_idx].pdevice;
                let device = Device::new(
                    surface_id,
                    instance_id,
                    pdevice,
                    0,
                    family_idx as u32,
                    0,
                    0,
                    window_extent,
                    SurfaceInfo {
                        caps: SurfaceCapabilities {
                            min_image_count: 0,
                            max_image_count: 0,
                            current_extent: Extent2d { width: 0, height: 0 },
                            supported_transforms: 0,
                            current_transform: 0,
                        },
                        formats: Vec::new(),
                        present_modes: Vec::new(),
                    },
                    MemoryProperties { memory_types: Vec::new() },
                    PhysicalProperties {
                        limits: DeviceLimits {
                            min_uniform_buffer_offset_alignment: 0,
                            min_storage_buffer_offset_alignment: 0,
                            min_texel_buffer_offset_alignment: 0,
                        },
                    },
                );
                let key = self.devices.insert(device);
                proof {
                    assert(chosen_queue(adapters@, adapter_idx as int, family_idx as int));
                }
                Some(key)
            },
        }
    }

    /// Tears down everything the system tracked, children before parents:
    /// the plan destroys every live device (its command pool, then the
    /// logical device), then every live surface, then every live instance,
    /// each registry in key order. Afterwards every previously issued key
    /// is dead, so no handle the plan destroys can be reached again.
    pub fn cleanup(&mut self) -> (r: Vec<DestroyAction>)
        ensures
            r@ == device_actions(old(self).devices@) + surface_actions(old(self).surfaces@)
                + instance_actions(old(self).instances@),
            forall|k: int| 0 <= k < final(self).devices@.len() ==> !final(self).devices.live(k),
            forall|k: int| 0 <= k < final(self).surfaces@.len() ==> !final(self).surfaces.live(k),
            forall|k: int| 0 <= k < final(self).instances@.len() ==> !final(self).instances.live(k),
    {
        let mut r: Vec<DestroyAction> = Vec::new();
        let dn = self.devices.len();
        let mut i: usize = 0;
        while i < dn
            invariant
                dn == self.devices@.len(),
                self.devices@.len() == old(self).devices@.len(),
                i <= dn,
                forall|k: int| i <= k < dn ==> self.devices@[k] == old(self).devices@[k],
                forall|k: int| 0 <= k < i ==> self.devices@[k] is None,
                r@ == device_actions(old(self).devices@.take(i as int)),
                self.surfaces@ == old(self).surfaces@,
                self.instances@ == old(self).instances@,
            decreases dn - i,
        {
            proof {
                assert(old(self).devices@.take(i + 1).drop_last() =~= old(self).devices@.take(
                    i as int,
                ));
                assert(old(self).devices@.take(i + 1).last() == old(self).devices@[i as int]);
            }
            if self.devices.is_live(i) {
                let d = self.devices.get(i);
                let pool = d.command_pool;
                let dev = d.device;
                r.push(DestroyAction::CommandPool(pool));
                r.push(DestroyAction::Device(dev));
                self.devices.release(i);
            }
            i += 1;
        }
        proof {
            assert(old(self).devices@.take(dn as int) =~= old(self).devices@);
        }
        let sn = self.surfaces.len();
        let mut i: usize = 0;
        while i < sn
            invariant
                sn == self.surfaces@.len(),
                self.surfaces@.len() == old(self).surfaces@.len(),
                i <= sn,
                forall|k: int| i <= k < sn ==> self.surfaces@[k] == old(self).surfaces@[k],
                forall|k: int| 0 <= k < i ==> self.surfaces@[k] is None,
                r@ == device_actions(old(self).devices@) + surface_actions(
                    old(self).surfaces@.take(i as int),
                ),
                forall|k: int| 0 <= k < self.devices@.len() ==> self.devices@[k] is None,
                self.devices@.len() == old(self).devices@.len(),
                self.instances@ == old(self).instances@,
            decreases sn - i,
        {
            proof {
                assert(old(self).surfaces@.take(i + 1).drop_last() =~= old(self).surfaces@.take(
                    i as int,
                ));
                assert(old(self).surfaces@.take(i + 1).last() == old(self).surfaces@[i as int]);
            }
            if self.surfaces.is_live(i) {
                let s = self.surfaces.get(i);
                let native = s.surface;
                r.push(DestroyAction::Surface(native));
                self.surfaces.release(i);
            }
            i += 1;
        }
        proof {
            assert(old(self).surfaces@.take(sn as int) =~= old(self).surfaces@);
        }
        let inn = self.instances.len();
        let mut i: usize = 0;
        while i < inn
            invariant
                inn == self.instances@.len(),
                self.instances@.len() == old(self).instances@.len(),
                i <= inn,
                forall|k: int| i <= k < inn ==> self.instances@[k] == old(self).instances@[k],
                forall|k: int| 0 <= k < i ==> self.instances@[k] is None,
                r@ == device_actions(old(self).devices@) + surface_actions(old(self).surfaces@)
                    + instance_actions(old(self).instances@.take(i as int)),
                forall|k: int| 0 <= k < self.devices@.len() ==> self.devices@[k] is None,
                forall|k: int| 0 <= k < self.surfaces@.len() ==> self.surfaces@[k] is None,
                self.devices@.len() == old(self).devices@.len(),
                self.surfaces@.len() == old(self).surfaces@.len(),
            decreases inn - i,
        {
            proof {
                assert(old(self).instances@.take(i + 1).drop_last() =~= old(self).instances@.take(
                    i as int,
                ));
                assert(old(self).instances@.take(i + 1).last() == old(self).instances@[i as int]);
            }
            if self.instances.is_live(i) {
                let inst = self.instances.get(i);
                let native = inst.instance;
                r.push(DestroyAction::Instance(native));
                self.instances.release(i);
            }
            i += 1;
        }
        proof {
            assert(old(self).instances@.take(inn as int) =~= old(self).instances@);
        }
        r
    }
}

/// The extension names a logical device is created with.
pub fn device_extension_names() -> (r: Vec<String>)
    ensures
        r@.len() == 1,
        r@[0]@ == "VK_KHR_swapchain"@,
{
    let mut r: Vec<String> = Vec::new();
    r.push("VK_KHR_swapchain".to_owned());
    r
}

} // verus!
