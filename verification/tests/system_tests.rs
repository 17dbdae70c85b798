use renderer::gpu::registry::Registry;
use renderer::gpu::system::{device_extension_names, find_queue, AdapterInfo, QueueFamilyInfo,
    System};
use renderer::gpu::types::{DestroyAction, Extent2d};

fn family(graphics: bool, present: bool) -> QueueFamilyInfo {
    QueueFamilyInfo { supports_graphics: graphics, supports_present: present }
}

#[test]
fn find_queue_needs_graphics_and_present_together() {
    let adapters = vec![
        AdapterInfo { pdevice: 1, queue_families: vec![family(true, false)] },
        AdapterInfo { pdevice: 2, queue_families: vec![family(false, true)] },
    ];
    assert_eq!(find_queue(&adapters), None);
}

#[test]
fn find_queue_picks_first_suitable_pair() {
    let adapters = vec![
        AdapterInfo { pdevice: 1, queue_families: vec![family(true, false)] },
        AdapterInfo {
            pdevice: 2,
            queue_families: vec![family(false, true), family(true, true), family(true, true)],
        },
    ];
    assert_eq!(find_queue(&adapters), Some((1, 1)));
}

#[test]
fn find_queue_on_no_adapters() {
    assert_eq!(find_queue(&vec![]), None);
}

#[test]
fn instance_merges_loader_and_window_extensions() {
    let mut sys = System::new();
    assert_eq!(sys.layer_names[0], "VK_LAYER_KHRONOS_validation");
    assert_eq!(sys.extension_names[0], "VK_EXT_debug_utils");
    let window_exts = vec!["VK_KHR_surface".to_owned(), "VK_KHR_xlib_surface".to_owned()];
    let merged = sys.instance_extensions(&window_exts);
    assert_eq!(
        merged,
        vec![
            "VK_EXT_debug_utils".to_owned(),
            "VK_KHR_surface".to_owned(),
            "VK_KHR_xlib_surface".to_owned(),
        ]
    );
    let key = sys.instance(Extent2d { width: 800, height: 600 }, &window_exts, 55);
    assert_eq!(key, 0);
    let inst = sys.instances.get(key);
    assert_eq!(inst.instance, 55);
    assert_eq!(inst.window_extent, Extent2d { width: 800, height: 600 });
    assert_eq!(inst.extensions.len(), 3);
    assert_eq!(inst.extensions[1], "VK_KHR_surface");
}

#[test]
fn device_absent_when_no_queue_family_qualifies() {
    let mut sys = System::new();
    let inst = sys.instance(Extent2d { width: 800, height: 600 }, &vec![], 1);
    let surf = sys.surface(inst, 2);
    let adapters = vec![AdapterInfo { pdevice: 9, queue_families: vec![family(true, false)] }];
    assert_eq!(sys.device(surf, &adapters), None);
    assert_eq!(sys.devices.len(), 0);
}

#[test]
fn device_registers_chosen_adapter_and_family() {
    let mut sys = System::new();
    let inst = sys.instance(Extent2d { width: 800, height: 600 }, &vec![], 1);
    let surf = sys.surface(inst, 2);
    let adapters = vec![
        AdapterInfo { pdevice: 9, queue_families: vec![family(false, false)] },
        AdapterInfo { pdevice: 11, queue_families: vec![family(false, true), family(true, true)] },
    ];
    let key = sys.device(surf, &adapters).expect("a suitable adapter exists");
    let d = sys.devices.get(key);
    assert_eq!(d.pdevice, 11);
    assert_eq!(d.queue_family_idx, 1);
    assert_eq!(d.surface_id, surf);
    assert_eq!(d.instance_id, inst);
    assert_eq!(d.window_extent, Extent2d { width: 800, height: 600 });
}

#[test]
fn cleanup_releases_children_before_parents() {
    let mut sys = System::new();
    let inst = sys.instance(Extent2d { width: 800, height: 600 }, &vec![], 100);
    let surf = sys.surface(inst, 200);
    let adapters = vec![AdapterInfo { pdevice: 5, queue_families: vec![family(true, true)] }];
    let dev = sys.device(surf, &adapters).unwrap();
    {
        let d = sys.devices.get_mut(dev);
        d.device = 300;
        d.command_pool = 400;
    }
    let plan = sys.cleanup();
    assert_eq!(
        plan,
        vec![
            DestroyAction::CommandPool(400),
            DestroyAction::Device(300),
            DestroyAction::Surface(200),
            DestroyAction::Instance(100),
        ]
    );
    assert!(!sys.devices.is_live(dev));
    assert!(!sys.surfaces.is_live(surf));
    assert!(!sys.instances.is_live(inst));
}

#[test]
fn registry_keys_die_on_release_and_are_not_reused() {
    let mut reg: Registry<u32> = Registry::new();
    let a = reg.insert(10);
    let b = reg.insert(20);
    assert_eq!(*reg.get(a), 10);
    assert_eq!(*reg.get(b), 20);
    reg.release(a);
    assert!(!reg.is_live(a));
    assert!(reg.is_live(b));
    let c = reg.insert(30);
    assert_eq!(c, 2);
    assert_eq!(*reg.get(c), 30);
}

#[test]
fn registry_get_mut_writes_through() {
    let mut reg: Registry<u32> = Registry::new();
    let a = reg.insert(1);
    *reg.get_mut(a) = 5;
    assert_eq!(*reg.get(a), 5);
}

#[test]
fn device_extensions_name_the_swapchain() {
    assert_eq!(device_extension_names(), vec!["VK_KHR_swapchain".to_owned()]);
}

#[test]
fn instance_extensions_without_window_demands() {
    let sys = System::new();
    let merged = sys.instance_extensions(&vec![]);
    assert_eq!(merged, vec!["VK_EXT_debug_utils".to_owned()]);
}
