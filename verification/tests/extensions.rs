use vulkano::{DeviceExtensions, InstanceExtensions, RawDeviceExtensions, RawInstanceExtensions};

fn names(list: &[&str]) -> Vec<String> {
    list.iter().map(|s| s.to_string()).collect()
}

fn sorted_names<'a>(it: impl Iterator<Item = &'a String>) -> Vec<String> {
    let mut v: Vec<String> = it.cloned().collect();
    v.sort();
    v
}

#[test]
fn empty_extensions() {
    let i: RawInstanceExtensions = (&InstanceExtensions::none()).into();
    assert!(i.iter().next().is_none());

    let d: RawDeviceExtensions = (&DeviceExtensions::none()).into();
    assert!(d.iter().next().is_none());
}

#[test]
fn none_has_every_flag_off() {
    let i = InstanceExtensions::none();
    assert!(!i.khr_surface);
    assert!(!i.khr_get_physical_device_properties2);
    assert_eq!(i.debug_string(), "[]");
    let d = DeviceExtensions::none();
    assert!(!d.khr_swapchain);
    assert!(!d.amd_wave_limits);
    assert_eq!(d.debug_string(), "[]");
}

#[test]
fn debug_string_lists_enabled_names_in_field_order() {
    let i = InstanceExtensions {
        khr_win32_surface: true,
        khr_surface: true,
        ..InstanceExtensions::none()
    };
    assert_eq!(i.debug_string(), "[VK_KHR_surface, VK_KHR_win32_surface]");
    let d = DeviceExtensions {
        amd_wave_limits: true,
        ..DeviceExtensions::none()
    };
    assert_eq!(d.debug_string(), "[VK_AMD_wave_limits]");
}

#[test]
fn intersection_and_difference_of_flags() {
    let a = InstanceExtensions {
        khr_surface: true,
        khr_display: true,
        ..InstanceExtensions::none()
    };
    let b = InstanceExtensions {
        khr_display: true,
        ext_debug_report: true,
        ..InstanceExtensions::none()
    };
    let both = a.intersection(&b);
    assert!(both == InstanceExtensions { khr_display: true, ..InstanceExtensions::none() });
    let only_a = a.difference(&b);
    assert!(only_a == InstanceExtensions { khr_surface: true, ..InstanceExtensions::none() });
    assert!(a.intersection(&b) == b.intersection(&a));
    assert!(a.difference(&a) == InstanceExtensions::none());
    assert!(a.difference(&b).intersection(&b) == InstanceExtensions::none());
}

#[test]
fn flags_to_names_and_back() {
    let d = DeviceExtensions {
        khr_swapchain: true,
        khr_16bit_storage: true,
        amd_shader_info: true,
        ..DeviceExtensions::none()
    };
    let raw: RawDeviceExtensions = (&d).into();
    assert_eq!(
        sorted_names(raw.iter()),
        names(&["VK_AMD_shader_info", "VK_KHR_16bit_storage", "VK_KHR_swapchain"])
    );
    let back: DeviceExtensions = (&raw).into();
    assert!(back == d);
}

#[test]
fn names_to_flags_drop_unknown_names() {
    let raw = RawInstanceExtensions::new(names(&[
        "VK_KHR_surface",
        "VK_SOMETHING_else",
        "VK_EXT_debug_report",
    ]));
    let flags: InstanceExtensions = (&raw).into();
    assert!(flags.khr_surface);
    assert!(flags.ext_debug_report);
    assert!(!flags.khr_display);
    let again: RawInstanceExtensions = (&flags).into();
    assert_eq!(
        sorted_names(again.iter()),
        names(&["VK_EXT_debug_report", "VK_KHR_surface"])
    );
}

#[test]
fn supported_names_turn_on_known_flags() {
    let reported = names(&["VK_KHR_xcb_surface", "VK_unknown", "VK_KHR_surface", "VK_KHR_surface"]);
    let i = InstanceExtensions::from_supported_names(&reported);
    assert!(i == InstanceExtensions {
        khr_xcb_surface: true,
        khr_surface: true,
        ..InstanceExtensions::none()
    });
    let d = DeviceExtensions::from_supported_names(&names(&["VK_KHR_maintenance3"]));
    assert!(d.khr_maintenance3);
    assert!(!d.khr_maintenance1);
    let nothing = DeviceExtensions::from_supported_names(&Vec::new());
    assert!(nothing == DeviceExtensions::none());
}

#[test]
fn raw_set_keeps_each_name_once() {
    let raw = RawDeviceExtensions::new(names(&["VK_a", "VK_b", "VK_a"]));
    assert_eq!(raw.iter().count(), 2);
    assert_eq!(sorted_names(raw.iter()), names(&["VK_a", "VK_b"]));
    let mut r = RawDeviceExtensions::none();
    r.insert("VK_c".to_string());
    r.insert("VK_c".to_string());
    assert_eq!(sorted_names(r.iter()), names(&["VK_c"]));
}

#[test]
fn raw_set_operations() {
    let a = RawInstanceExtensions::new(names(&["VK_a", "VK_b", "VK_c"]));
    let b = RawInstanceExtensions::new(names(&["VK_b", "VK_d"]));
    assert_eq!(sorted_names(a.intersection(&b).iter()), names(&["VK_b"]));
    assert_eq!(sorted_names(a.difference(&b).iter()), names(&["VK_a", "VK_c"]));
    assert_eq!(
        sorted_names(a.union(&b).iter()),
        names(&["VK_a", "VK_b", "VK_c", "VK_d"])
    );
    assert!(a.union(&b) == b.union(&a));
}

#[test]
fn raw_sets_compare_by_names_only() {
    let a = RawDeviceExtensions::new(names(&["VK_x", "VK_y"]));
    let b = RawDeviceExtensions::new(names(&["VK_y", "VK_x", "VK_y"]));
    assert!(a == b);
    let c = a.clone();
    assert!(c == a);
    let d = RawDeviceExtensions::new(names(&["VK_x"]));
    assert!(a != d);
}

#[test]
fn names_of_intersection_and_difference() {
    let a = DeviceExtensions {
        khr_swapchain: true,
        khr_multiview: true,
        amd_gcn_shader: true,
        ..DeviceExtensions::none()
    };
    let b = DeviceExtensions {
        khr_multiview: true,
        amd_gcn_shader: true,
        ext_global_priority: true,
        ..DeviceExtensions::none()
    };
    let ra: RawDeviceExtensions = (&a).into();
    let rb: RawDeviceExtensions = (&b).into();
    let both: RawDeviceExtensions = (&a.intersection(&b)).into();
    assert!(both == ra.intersection(&rb));
    assert_eq!(
        sorted_names(both.iter()),
        names(&["VK_AMD_gcn_shader", "VK_KHR_multiview"])
    );
    let only_a: RawDeviceExtensions = (&a.difference(&b)).into();
    assert!(only_a == ra.difference(&rb));
    assert_eq!(sorted_names(only_a.iter()), names(&["VK_KHR_swapchain"]));
}

#[test]
fn every_known_device_flag_round_trips_alone() {
    let all = DeviceExtensions::from_supported_names(&names(&[
        "VK_KHR_swapchain",
        "VK_KHR_display_swapchain",
        "VK_AMD_wave_limits",
        "VK_EXT_shader_viewport_index_layer",
    ]));
    assert_eq!(
        all.debug_string(),
        "[VK_KHR_swapchain, VK_KHR_display_swapchain, VK_EXT_shader_viewport_index_layer, VK_AMD_wave_limits]"
    );
    let raw: RawDeviceExtensions = (&all).into();
    let back: DeviceExtensions = (&raw).into();
    assert!(back == all);
}
